//! Addresses at which a peer says it can be reached.

use vstd::prelude::*;

verus! {

/// An address of a peer, as text.
#[derive(Debug)]
pub enum Address {
    /// The URL of a relay that forwards to the peer.
    Relay(String),
    /// A socket address of the peer itself.
    Ip(String),
    /// An address of another transport.
    Other(String),
}

/// What an address says.
pub enum AddressModel {
    Relay(Seq<char>),
    Ip(Seq<char>),
    Other(Seq<char>),
}

impl View for Address {
    type V = AddressModel;

    open spec fn view(&self) -> AddressModel {
        match self {
            Address::Relay(text) => AddressModel::Relay(text@),
            Address::Ip(text) => AddressModel::Ip(text@),
            Address::Other(text) => AddressModel::Other(text@),
        }
    }
}

/// What a list of addresses says.
pub open spec fn address_models(addresses: Seq<Address>) -> Seq<AddressModel> {
    addresses.map_values(|address: Address| address@)
}

/// The relay addresses of a list, in order.
pub open spec fn relay_addresses(addresses: Seq<AddressModel>) -> Seq<AddressModel> {
    addresses.filter(|address: AddressModel| address is Relay)
}

/// Whether a list offers no socket address of the peer itself.
pub open spec fn lacks_ip(addresses: Seq<AddressModel>) -> bool {
    forall|i: int| 0 <= i < addresses.len() ==> !((#[trigger] addresses[i]) is Ip)
}

/// Keeps the relay addresses of a list, so that the first path to the peer
/// cannot be a direct one.
pub fn relay_only(addresses: &Vec<Address>) -> (kept: Vec<Address>)
    ensures
        address_models(kept@) == relay_addresses(address_models(addresses@)),
{
    let ghost models = address_models(addresses@);
    let ghost is_relay = |address: AddressModel| address is Relay;
    let mut kept: Vec<Address> = Vec::new();
    let mut i: usize = 0;
    proof {
        assert(models.take(0).filter(is_relay) == Seq::<AddressModel>::empty()) by {
            reveal(Seq::filter);
        }
    }
    while i < addresses.len()
        invariant
            i <= addresses.len(),
            models == address_models(addresses@),
            is_relay == (|address: AddressModel| address is Relay),
            address_models(kept@) == models.take(i as int).filter(is_relay),
        decreases addresses.len() - i,
    {
        let ghost before = kept@;
        assert(models[i as int] == addresses[i as int]@);
        proof {
            let next = models.take(i + 1);
            assert(next.drop_last() == models.take(i as int));
            reveal(Seq::filter);
        }
        if let Address::Relay(text) = &addresses[i] {
            kept.push(Address::Relay(text.clone()));
            assert(address_models(kept@) == address_models(before).push(models[i as int]));
        }
        i += 1;
    }
    assert(models.take(models.len() as int) == models);
    kept
}

/// Tells whether a list offers no socket address of the peer itself.
pub fn is_relay_bootstrap(addresses: &Vec<Address>) -> (yes: bool)
    ensures
        yes == lacks_ip(address_models(addresses@)),
{
    let ghost models = address_models(addresses@);
    let mut i: usize = 0;
    while i < addresses.len()
        invariant
            i <= addresses.len(),
            models == address_models(addresses@),
            forall|j: int| 0 <= j < i ==> !((#[trigger] models[j]) is Ip),
        decreases addresses.len() - i,
    {
        assert(models[i as int] == addresses[i as int]@);
        if let Address::Ip(_) = &addresses[i] {
            return false;
        }
        i += 1;
    }
    true
}

/// Whatever addresses a peer has, the dialer accepts what is left of them as a
/// bootstrap: only relay addresses remain, and no relay address is lost.
pub proof fn law_bootstrap_is_relay_only(addresses: Seq<AddressModel>)
    ensures
        lacks_ip(relay_addresses(addresses)),
        forall|i: int|
            0 <= i < relay_addresses(addresses).len() ==> (#[trigger] relay_addresses(
                addresses,
            )[i]) is Relay,
        forall|address: AddressModel|
            address is Relay && addresses.contains(address) ==> #[trigger] relay_addresses(
                addresses,
            ).contains(address),
{
    let is_relay = |address: AddressModel| address is Relay;
    let kept = relay_addresses(addresses);
    assert forall|i: int| 0 <= i < kept.len() implies (#[trigger] kept[i]) is Relay by {
        addresses.lemma_filter_pred(is_relay, i);
    }
    assert forall|address: AddressModel|
        address is Relay && addresses.contains(address) implies #[trigger] relay_addresses(
        addresses,
    ).contains(address) by {
        let i = choose|i: int| 0 <= i < addresses.len() && addresses[i] == address;
        addresses.lemma_filter_contains(is_relay, i);
    }
}

/// A model of an address keeps its kind and its text, and a list of addresses
/// keeps its addresses in order.
pub proof fn law_addresses_are_kept_as_they_are(addresses: Seq<Address>)
    ensures
        address_models(addresses).len() == addresses.len(),
        forall|i: int|
            0 <= i < addresses.len() ==> match addresses[i] {
                Address::Relay(text) => #[trigger] address_models(addresses)[i]
                    == AddressModel::Relay(text@),
                Address::Ip(text) => address_models(addresses)[i] == AddressModel::Ip(text@),
                Address::Other(text) => address_models(addresses)[i] == AddressModel::Other(text@),
            },
{
}

/// Which addresses are kept is told address by address: a relay address stays,
/// any other goes, and what is kept of two lists in a row is what is kept of the
/// first and then what is kept of the second. So nothing is lost, added, repeated
/// or moved.
pub proof fn law_relays_are_kept_one_by_one(
    address: AddressModel,
    left: Seq<AddressModel>,
    right: Seq<AddressModel>,
)
    ensures
        relay_addresses(Seq::empty()).len() == 0,
        address is Relay ==> relay_addresses(seq![address]) == seq![address],
        !(address is Relay) ==> relay_addresses(seq![address]).len() == 0,
        relay_addresses(left + right) == relay_addresses(left) + relay_addresses(right),
{
    let is_relay = |address: AddressModel| address is Relay;
    reveal(Seq::filter);
    assert(seq![address].drop_last() =~= Seq::empty());
    assert(seq![address].drop_last().filter(is_relay) =~= Seq::empty());
    Seq::filter_distributes_over_add(left, right, is_relay);
}

/// An address is kept exactly if the list has it and it is that of a relay.
pub proof fn law_kept_are_the_relays(addresses: Seq<AddressModel>, address: AddressModel)
    ensures
        relay_addresses(addresses).contains(address) <==> addresses.contains(address)
            && address is Relay,
{
    let is_relay = |address: AddressModel| address is Relay;
    law_bootstrap_is_relay_only(addresses);
    if relay_addresses(addresses).contains(address) {
        addresses.lemma_filter_contains_rev(is_relay, address);
        let i = choose|i: int|
            0 <= i < relay_addresses(addresses).len() && relay_addresses(addresses)[i] == address;
        assert(relay_addresses(addresses)[i] is Relay);
    }
}

/// A list fails as a bootstrap exactly if a socket address of the peer is among
/// its addresses. Addresses of other transports do not count.
pub proof fn law_one_ip_address_spoils_a_bootstrap(addresses: Seq<AddressModel>)
    ensures
        !lacks_ip(addresses) <==> exists|text: Seq<char>| #[trigger]
            addresses.contains(AddressModel::Ip(text)),
{
    if !lacks_ip(addresses) {
        let i = choose|i: int| 0 <= i < addresses.len() && (#[trigger] addresses[i]) is Ip;
        assert(addresses.contains(AddressModel::Ip(addresses[i]->Ip_0)));
    }
}

} // verus!
