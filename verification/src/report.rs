//! What a finished case reports.

use vstd::prelude::*;

use crate::case::RelayCase;
#[allow(unused_imports)]
use crate::document;
use crate::document::Document;
#[allow(unused_imports)]
use crate::document::Scalar;
use crate::text;
use crate::transfer::PAYLOAD_LEN;

verus! {

/// How many traversal frames the dialer's side of a connection received and
/// sent: candidate addresses, and probes.
#[derive(Clone, Copy, PartialEq, Eq, Structural, Debug)]
pub struct FrameCounts {
    pub add_address_rx: u64,
    pub add_address_tx: u64,
    pub reach_out_rx: u64,
    pub reach_out_tx: u64,
}

impl FrameCounts {
    /// Whether no traversal frame went either way.
    pub open spec fn all_zero(self) -> bool {
        self == (FrameCounts {
            add_address_rx: 0,
            add_address_tx: 0,
            reach_out_rx: 0,
            reach_out_tx: 0,
        })
    }

    /// Tells whether no traversal frame went either way.
    pub fn none(&self) -> (none: bool)
        ensures
            none == self.all_zero(),
    {
        self.add_address_rx == 0 && self.add_address_tx == 0 && self.reach_out_rx == 0
            && self.reach_out_tx == 0
    }
}

/// The report of a case with a relay.
#[derive(Debug)]
pub struct Report {
    pub case: RelayCase,
    /// How long connecting took, in milliseconds.
    pub connect_ms: u128,
    /// The selected remote address right after connecting.
    pub initial_path: Option<String>,
    /// The selected remote address at the end of the observation.
    pub path_before_cut: Option<String>,
    /// Whether a direct path was seen before the relay was cut.
    pub direct: bool,
    /// The time from the start of connecting to the end of the observation, in
    /// milliseconds.
    pub observed_ms: u128,
    /// The digest of the payload, in hexadecimal.
    pub payload_blake2b: String,
    /// Whether an exchange succeeded after the relay was cut.
    pub post_cut_transfer: bool,
    /// Why the exchange after the cut failed, if it did.
    pub post_cut_error: Option<String>,
    pub frames: FrameCounts,
}

/// What a report says.
pub struct ReportModel {
    pub case: RelayCase,
    pub connect_ms: u128,
    pub initial_path: Option<Seq<char>>,
    pub path_before_cut: Option<Seq<char>>,
    pub direct: bool,
    pub observed_ms: u128,
    pub payload_blake2b: Seq<char>,
    pub post_cut_transfer: bool,
    pub post_cut_error: Option<Seq<char>>,
    pub frames: FrameCounts,
}

impl View for Report {
    type V = ReportModel;

    open spec fn view(&self) -> ReportModel {
        ReportModel {
            case: self.case,
            connect_ms: self.connect_ms,
            initial_path: text::optional_view(self.initial_path),
            path_before_cut: text::optional_view(self.path_before_cut),
            direct: self.direct,
            observed_ms: self.observed_ms,
            payload_blake2b: self.payload_blake2b@,
            post_cut_transfer: self.post_cut_transfer,
            post_cut_error: text::optional_view(self.post_cut_error),
            frames: self.frames,
        }
    }
}

impl ReportModel {
    /// Whether the times of the report fit the numbers of a document.
    pub open spec fn times_fit(self) -> bool {
        self.connect_ms <= u64::MAX && self.observed_ms <= u64::MAX
    }

    /// The entries of the report's document.
    pub open spec fn fields(self) -> Map<Seq<char>, Scalar> {
        document::no_fields()
        .insert("server_nat_traversal"@, Scalar::Bool(self.case.server))
        .insert("client_nat_traversal"@, Scalar::Bool(self.case.client))
        .insert("udp_blocked"@, Scalar::Bool(self.case.udp_blocked))
        .insert("connect_ms"@, Scalar::Number(self.connect_ms as nat))
        .insert("initial_path"@, document::optional_scalar(self.initial_path))
        .insert("path_before_cut"@, document::optional_scalar(self.path_before_cut))
        .insert("direct"@, Scalar::Bool(self.direct))
        .insert("observed_ms"@, Scalar::Number(self.observed_ms as nat))
        .insert("payload_bytes_each_direction"@, Scalar::Number(PAYLOAD_LEN as nat))
        .insert("payload_blake2b"@, Scalar::Text(self.payload_blake2b))
        .insert("post_cut_transfer"@, Scalar::Bool(self.post_cut_transfer))
        .insert("post_cut_error"@, document::optional_scalar(self.post_cut_error))
        .insert("add_address_rx"@, Scalar::Number(self.frames.add_address_rx as nat))
        .insert("add_address_tx"@, Scalar::Number(self.frames.add_address_tx as nat))
        .insert("reach_out_rx"@, Scalar::Number(self.frames.reach_out_rx as nat))
        .insert("reach_out_tx"@, Scalar::Number(self.frames.reach_out_tx as nat))
    }
}

impl Report {
    /// Tells whether the times of the report fit the numbers of a document.
    pub fn fits(&self) -> (fits: bool)
        ensures
            fits == self@.times_fit(),
    {
        self.connect_ms <= u64::MAX as u128 && self.observed_ms <= u64::MAX as u128
    }

    /// Writes the report as a document.
    pub fn document(&self) -> (document: Document)
        requires
            self@.times_fit(),
        ensures
            document@ == self@.fields(),
    {
        let mut document = Document::empty();
        document.set_bool("server_nat_traversal", self.case.server);
        document.set_bool("client_nat_traversal", self.case.client);
        document.set_bool("udp_blocked", self.case.udp_blocked);
        document.set_number("connect_ms", self.connect_ms as u64);
        document.set_optional("initial_path", &self.initial_path);
        document.set_optional("path_before_cut", &self.path_before_cut);
        document.set_bool("direct", self.direct);
        document.set_number("observed_ms", self.observed_ms as u64);
        document.set_number("payload_bytes_each_direction", PAYLOAD_LEN as u64);
        document.set_text("payload_blake2b", self.payload_blake2b.as_str());
        document.set_bool("post_cut_transfer", self.post_cut_transfer);
        document.set_optional("post_cut_error", &self.post_cut_error);
        document.set_number("add_address_rx", self.frames.add_address_rx);
        document.set_number("add_address_tx", self.frames.add_address_tx);
        document.set_number("reach_out_rx", self.frames.reach_out_rx);
        document.set_number("reach_out_tx", self.frames.reach_out_tx);
        document
    }
}

/// The entries of the document on a case without a relay. Such a case has
/// nothing to report but that no connection came about.
pub open spec fn no_relay_fields(enabled: bool) -> Map<Seq<char>, Scalar> {
    document::no_fields()
        .insert("relay"@, Scalar::Bool(false))
        .insert("server_nat_traversal"@, Scalar::Bool(enabled))
        .insert("client_nat_traversal"@, Scalar::Bool(enabled))
        .insert("connected"@, Scalar::Bool(false))
}

/// Writes the document on a case without a relay.
pub fn no_relay_document(enabled: bool) -> (document: Document)
    ensures
        document@ == no_relay_fields(enabled),
{
    let mut document = Document::empty();
    document.set_bool("relay", false);
    document.set_bool("server_nat_traversal", enabled);
    document.set_bool("client_nat_traversal", enabled);
    document.set_bool("connected", false);
    document
}

/// The document of a report has these entries and no others, and reading an
/// entry gives back what the report says. No entry overwrites another.
pub proof fn law_report_document_reads_back(report: ReportModel)
    ensures
        report.fields().dom() == set![
            "server_nat_traversal"@,
            "client_nat_traversal"@,
            "udp_blocked"@,
            "connect_ms"@,
            "initial_path"@,
            "path_before_cut"@,
            "direct"@,
            "observed_ms"@,
            "payload_bytes_each_direction"@,
            "payload_blake2b"@,
            "post_cut_transfer"@,
            "post_cut_error"@,
            "add_address_rx"@,
            "add_address_tx"@,
            "reach_out_rx"@,
            "reach_out_tx"@,
        ],
        report.fields()["server_nat_traversal"@] == Scalar::Bool(report.case.server),
        report.fields()["client_nat_traversal"@] == Scalar::Bool(report.case.client),
        report.fields()["udp_blocked"@] == Scalar::Bool(report.case.udp_blocked),
        report.fields()["connect_ms"@] == Scalar::Number(report.connect_ms as nat),
        report.fields()["initial_path"@] == document::optional_scalar(report.initial_path),
        report.fields()["path_before_cut"@] == document::optional_scalar(report.path_before_cut),
        report.fields()["direct"@] == Scalar::Bool(report.direct),
        report.fields()["observed_ms"@] == Scalar::Number(report.observed_ms as nat),
        report.fields()["payload_bytes_each_direction"@] == Scalar::Number(PAYLOAD_LEN as nat),
        report.fields()["payload_blake2b"@] == Scalar::Text(report.payload_blake2b),
        report.fields()["post_cut_transfer"@] == Scalar::Bool(report.post_cut_transfer),
        report.fields()["post_cut_error"@] == document::optional_scalar(report.post_cut_error),
        report.fields()["add_address_rx"@] == Scalar::Number(report.frames.add_address_rx as nat),
        report.fields()["add_address_tx"@] == Scalar::Number(report.frames.add_address_tx as nat),
        report.fields()["reach_out_rx"@] == Scalar::Number(report.frames.reach_out_rx as nat),
        report.fields()["reach_out_tx"@] == Scalar::Number(report.frames.reach_out_tx as nat),
{
    reveal_strlit("server_nat_traversal");
    reveal_strlit("client_nat_traversal");
    reveal_strlit("udp_blocked");
    reveal_strlit("connect_ms");
    reveal_strlit("initial_path");
    reveal_strlit("path_before_cut");
    reveal_strlit("direct");
    reveal_strlit("observed_ms");
    reveal_strlit("payload_bytes_each_direction");
    reveal_strlit("payload_blake2b");
    reveal_strlit("post_cut_transfer");
    reveal_strlit("post_cut_error");
    reveal_strlit("add_address_rx");
    reveal_strlit("add_address_tx");
    reveal_strlit("reach_out_rx");
    reveal_strlit("reach_out_tx");
    assert("server_nat_traversal"@.len() == 20);
    assert("client_nat_traversal"@.len() == 20);
    assert("udp_blocked"@.len() == 11);
    assert("connect_ms"@.len() == 10);
    assert("initial_path"@.len() == 12);
    assert("path_before_cut"@.len() == 15);
    assert("direct"@.len() == 6);
    assert("observed_ms"@.len() == 11);
    assert("payload_bytes_each_direction"@.len() == 28);
    assert("payload_blake2b"@.len() == 15);
    assert("post_cut_transfer"@.len() == 17);
    assert("post_cut_error"@.len() == 14);
    assert("add_address_rx"@.len() == 14);
    assert("add_address_tx"@.len() == 14);
    assert("reach_out_rx"@.len() == 12);
    assert("reach_out_tx"@.len() == 12);
    assert("server_nat_traversal"@[0] != "client_nat_traversal"@[0]);
    assert("udp_blocked"@[0] != "observed_ms"@[0]);
    assert("initial_path"@[0] != "reach_out_rx"@[0]);
    assert("initial_path"@[0] != "reach_out_tx"@[0]);
    assert("reach_out_rx"@[10] != "reach_out_tx"@[10]);
    assert("path_before_cut"@[2] != "payload_blake2b"@[2]);
    assert("post_cut_error"@[0] != "add_address_rx"@[0]);
    assert("post_cut_error"@[0] != "add_address_tx"@[0]);
    assert("add_address_rx"@[12] != "add_address_tx"@[12]);
    assert(report.fields().dom() =~= set![
            "server_nat_traversal"@,
            "client_nat_traversal"@,
            "udp_blocked"@,
            "connect_ms"@,
            "initial_path"@,
            "path_before_cut"@,
            "direct"@,
            "observed_ms"@,
            "payload_bytes_each_direction"@,
            "payload_blake2b"@,
            "post_cut_transfer"@,
            "post_cut_error"@,
            "add_address_rx"@,
            "add_address_tx"@,
            "reach_out_rx"@,
            "reach_out_tx"@,
        ]);
}

/// The document on a case without a relay says that there was no relay and no
/// connection, whatever the traversal setting, and names the setting twice.
pub proof fn law_no_relay_document_reads_back(enabled: bool)
    ensures
        no_relay_fields(enabled).dom() == set![
            "relay"@,
            "server_nat_traversal"@,
            "client_nat_traversal"@,
            "connected"@,
        ],
        no_relay_fields(enabled)["relay"@] == Scalar::Bool(false),
        no_relay_fields(enabled)["server_nat_traversal"@] == Scalar::Bool(enabled),
        no_relay_fields(enabled)["client_nat_traversal"@] == Scalar::Bool(enabled),
        no_relay_fields(enabled)["connected"@] == Scalar::Bool(false),
{
    reveal_strlit("relay");
    reveal_strlit("server_nat_traversal");
    reveal_strlit("client_nat_traversal");
    reveal_strlit("connected");
    assert("server_nat_traversal"@[0] != "client_nat_traversal"@[0]);
    assert("client_nat_traversal"@[1] != "connected"@[1]);
    assert(no_relay_fields(enabled).dom() =~= set![
            "relay"@,
            "server_nat_traversal"@,
            "client_nat_traversal"@,
            "connected"@,
        ]);
}

/// A report's model keeps all that the report says.
pub proof fn law_report_is_kept_as_it_is(report: Report)
    ensures
        report@.case == report.case,
        report@.connect_ms == report.connect_ms,
        report@.initial_path == text::optional_view(report.initial_path),
        report@.path_before_cut == text::optional_view(report.path_before_cut),
        report@.direct == report.direct,
        report@.observed_ms == report.observed_ms,
        report@.payload_blake2b == report.payload_blake2b@,
        report@.post_cut_transfer == report.post_cut_transfer,
        report@.post_cut_error == text::optional_view(report.post_cut_error),
        report@.frames == report.frames,
{
}

/// A single frame of either kind, in either direction, counts as traversal.
pub proof fn law_any_frame_is_traversal(frames: FrameCounts)
    ensures
        !frames.all_zero() <==> frames.add_address_rx > 0 || frames.add_address_tx > 0
            || frames.reach_out_rx > 0 || frames.reach_out_tx > 0,
{
}

/// The times of a report fit a document exactly if neither is beyond the largest
/// number of 64 bits, and nothing else of the report matters.
pub proof fn law_times_fit_in_64_bits(report: ReportModel)
    ensures
        report.times_fit() <==> report.connect_ms <= 0xffff_ffff_ffff_ffff && report.observed_ms
            <= 0xffff_ffff_ffff_ffff,
{
}

} // verus!
