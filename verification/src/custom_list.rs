//! When a change of the settings asks for a new tunnel because of a custom
//! list.
//!
//! A custom list is a named list of locations. Relays, the entry of a
//! multihop tunnel and bridges can each be picked from one. If a list that
//! is in use changes, the tunnel has to be set up again.

use vstd::prelude::*;
use crate::redact::string_views;
use crate::text::same_text;

verus! {

/// Identifies a custom list.
pub type Id = u128;

/// A limit on a choice: none, or exactly this.
#[derive(Debug, PartialEq, Eq)]
pub enum Constraint<T> {
    Any,
    Only(T),
}

impl<T: Copy> Clone for Constraint<T> {
    fn clone(&self) -> (copy: Self)
        ensures
            copy == *self,
    {
        *self
    }
}

impl<T: Copy> Copy for Constraint<T> {

}

/// Where a relay may be.
#[derive(Clone, Copy, Debug, PartialEq, Eq)]
pub enum LocationConstraint {
    /// In a place that is named directly.
    Location,
    /// In one of the places of a custom list.
    CustomList { list_id: Id },
}

/// The tunnel protocols.
#[derive(Clone, Copy, Debug, PartialEq, Eq)]
pub enum TunnelType {
    OpenVpn,
    Wireguard,
}

/// Whether bridges are used.
#[derive(Clone, Copy, Debug, PartialEq, Eq)]
pub enum BridgeState {
    Auto,
    On,
    Off,
}

/// What is asked of a WireGuard relay.
#[derive(Clone, Copy, Debug, PartialEq, Eq)]
pub struct WireguardConstraints {
    pub use_multihop: bool,
    pub entry_location: Constraint<LocationConstraint>,
}

/// What is asked of a relay.
#[derive(Clone, Copy, Debug, PartialEq, Eq)]
pub struct RelayConstraints {
    pub location: Constraint<LocationConstraint>,
    pub tunnel_protocol: Constraint<TunnelType>,
    pub wireguard_constraints: WireguardConstraints,
}

/// How the relay is picked.
#[derive(Clone, Copy, Debug, PartialEq, Eq)]
pub enum RelaySettings {
    /// By constraints.
    Normal(RelayConstraints),
    /// Not at all: the user has named an endpoint.
    CustomTunnelEndpoint,
}

/// The bridge settings, resolved: the constraints on the location of the
/// bridge where bridges are picked by constraints, and nothing where the
/// user has named a proxy or the settings do not resolve.
#[derive(Clone, Copy, Debug, PartialEq, Eq)]
pub enum ResolvedBridgeSettings {
    Normal { location: Constraint<LocationConstraint> },
    Custom,
    Unresolved,
}

/// A named list of locations.
#[derive(Debug, PartialEq, Eq)]
pub struct CustomList {
    pub id: Id,
    pub name: String,
    pub locations: Vec<String>,
}

/// A custom list as contracts see it.
pub struct CustomListView {
    pub id: Id,
    pub name: Seq<char>,
    pub locations: Seq<Seq<char>>,
}

impl View for CustomList {
    type V = CustomListView;

    open spec fn view(&self) -> CustomListView {
        CustomListView { id: self.id, name: self.name@, locations: string_views(self.locations@) }
    }
}

/// The settings, as far as custom lists matter to the tunnel.
#[derive(Debug, PartialEq, Eq)]
pub struct Settings {
    pub relay_settings: RelaySettings,
    pub bridge_settings: ResolvedBridgeSettings,
    pub bridge_state: BridgeState,
    pub custom_lists: Vec<CustomList>,
}

/// The custom list that a constraint names, if it names one.
pub open spec fn named_list(location: Constraint<LocationConstraint>) -> Option<Id> {
    match location {
        Constraint::Only(LocationConstraint::CustomList { list_id }) => Some(list_id),
        _ => None,
    }
}

/// The constraint leaves room for the protocol.
pub open spec fn allows(constraint: Constraint<TunnelType>, protocol: TunnelType) -> bool {
    match constraint {
        Constraint::Any => true,
        Constraint::Only(only) => only == protocol,
    }
}

/// The first list with the identifier `id`.
pub open spec fn found_list(lists: Seq<CustomList>, id: Id) -> Option<CustomListView>
    decreases lists.len(),
{
    if lists.len() == 0 {
        None
    } else if lists[0].id == id {
        Some(lists[0]@)
    } else {
        found_list(lists.skip(1), id)
    }
}

/// The list with the identifier `id` is not the same before and after: it
/// was added, removed, renamed, or its locations changed.
pub open spec fn list_differs(prev: Settings, new: Settings, id: Id) -> bool {
    found_list(prev.custom_lists@, id) != found_list(new.custom_lists@, id)
}

/// The list that `location` names, if any, is not the same before and
/// after.
pub open spec fn named_list_differs(
    prev: Settings,
    new: Settings,
    location: Constraint<LocationConstraint>,
) -> bool {
    match named_list(location) {
        Some(id) => list_differs(prev, new, id),
        None => false,
    }
}

/// A multihop tunnel is possible: it is asked for, and WireGuard is allowed.
pub open spec fn multihop_compatible(relay_settings: RelayConstraints) -> bool {
    relay_settings.wireguard_constraints.use_multihop && allows(
        relay_settings.tunnel_protocol,
        TunnelType::Wireguard,
    )
}

/// Bridges are possible: relays are picked by constraints that allow
/// OpenVPN, and bridges are not switched off.
pub open spec fn bridge_compatible(settings: Settings) -> bool {
    match settings.relay_settings {
        RelaySettings::Normal(relay_settings) => settings.bridge_state != BridgeState::Off
            && allows(relay_settings.tunnel_protocol, TunnelType::OpenVpn),
        RelaySettings::CustomTunnelEndpoint => false,
    }
}

/// The location of the bridge, where bridges are picked by constraints.
pub open spec fn bridge_location(settings: Settings) -> Constraint<LocationConstraint> {
    match settings.bridge_settings {
        ResolvedBridgeSettings::Normal { location } => location,
        _ => Constraint::Any,
    }
}

/// The change from `prev` to `new` touches a custom list that the new
/// settings use: for the relay, for the entry of a multihop tunnel if one is
/// possible, or for the bridge if bridges are possible. Settings that name
/// their endpoint use no list.
pub open spec fn needs_reconnect(prev: Settings, new: Settings) -> bool {
    match new.relay_settings {
        RelaySettings::CustomTunnelEndpoint => false,
        RelaySettings::Normal(relay_settings) => {
            ||| named_list_differs(prev, new, relay_settings.location)
            ||| (multihop_compatible(relay_settings) && named_list_differs(
                prev,
                new,
                relay_settings.wireguard_constraints.entry_location,
            ))
            ||| (bridge_compatible(new) && named_list_differs(prev, new, bridge_location(new)))
        },
    }
}

fn same_strings(a: &Vec<String>, b: &Vec<String>) -> (same: bool)
    ensures
        same == (string_views(a@) == string_views(b@)),
{
    if a.len() != b.len() {
        return false;
    }
    let mut at: usize = 0;
    while at < a.len()
        invariant
            a.len() == b.len(),
            at <= a.len(),
            forall|k: int| 0 <= k < at ==> a@[k]@ == b@[k]@,
        decreases a.len() - at,
    {
        if !same_text(a[at].as_str(), b[at].as_str()) {
            assert(string_views(a@)[at as int] != string_views(b@)[at as int]);
            return false;
        }
        at += 1;
    }
    assert(string_views(a@) =~= string_views(b@));
    true
}

fn same_list(a: &CustomList, b: &CustomList) -> (same: bool)
    ensures
        same == (a@ == b@),
{
    a.id == b.id && same_text(a.name.as_str(), b.name.as_str()) && same_strings(
        &a.locations,
        &b.locations,
    )
}

/// Finds the first list with the identifier `id`.
pub fn find_by_id(lists: &Vec<CustomList>, id: Id) -> (found: Option<&CustomList>)
    ensures
        match found {
            Some(list) => found_list(lists@, id) == Some(list@),
            None => found_list(lists@, id) is None,
        },
{
    let mut at: usize = 0;
    assert(lists@.skip(0) =~= lists@);
    while at < lists.len()
        invariant
            at <= lists.len(),
            found_list(lists@, id) == found_list(lists@.skip(at as int), id),
        decreases lists.len() - at,
    {
        assert(lists@.skip(at as int)[0] == lists@[at as int]);
        if lists[at].id == id {
            return Some(&lists[at]);
        }
        assert(lists@.skip(at as int).skip(1) =~= lists@.skip(at + 1));
        at += 1;
    }
    None
}

/// Tells whether the list with the identifier `id` is not the same in
/// `prev` and in `new`.
pub fn list_changed(prev: &Settings, new: &Settings, id: Id) -> (changed: bool)
    ensures
        changed == list_differs(*prev, *new, id),
{
    match (find_by_id(&prev.custom_lists, id), find_by_id(&new.custom_lists, id)) {
        (Some(before), Some(after)) => !same_list(before, after),
        (None, None) => false,
        (Some(_), None) => true,
        (None, Some(_)) => true,
    }
}

fn location_changed(prev: &Settings, new: &Settings, location: &Constraint<LocationConstraint>) -> (changed:
    bool)
    ensures
        changed == named_list_differs(*prev, *new, *location),
{
    match location {
        Constraint::Only(LocationConstraint::CustomList { list_id }) => list_changed(
            prev,
            new,
            *list_id,
        ),
        Constraint::Only(LocationConstraint::Location) => false,
        Constraint::Any => false,
    }
}

fn protocol_allowed(constraint: &Constraint<TunnelType>, protocol: TunnelType) -> (allowed: bool)
    ensures
        allowed == allows(*constraint, protocol),
{
    match constraint {
        Constraint::Any => true,
        Constraint::Only(only) => match (only, protocol) {
            (TunnelType::OpenVpn, TunnelType::OpenVpn) => true,
            (TunnelType::Wireguard, TunnelType::Wireguard) => true,
            (TunnelType::OpenVpn, TunnelType::Wireguard) => false,
            (TunnelType::Wireguard, TunnelType::OpenVpn) => false,
        },
    }
}

/// Tells whether constraints allow WireGuard.
pub fn constraints_are_wireguard_compatible(relay_settings: &RelayConstraints) -> (compatible: bool)
    ensures
        compatible == allows(relay_settings.tunnel_protocol, TunnelType::Wireguard),
{
    protocol_allowed(&relay_settings.tunnel_protocol, TunnelType::Wireguard)
}

/// Tells whether constraints allow OpenVPN.
pub fn constraints_are_openvpn_compatible(relay_settings: &RelayConstraints) -> (compatible: bool)
    ensures
        compatible == allows(relay_settings.tunnel_protocol, TunnelType::OpenVpn),
{
    protocol_allowed(&relay_settings.tunnel_protocol, TunnelType::OpenVpn)
}

/// Tells whether constraints make a multihop tunnel possible.
pub fn constraints_are_multihop_compatible(relay_settings: &RelayConstraints) -> (compatible: bool)
    ensures
        compatible == multihop_compatible(*relay_settings),
{
    relay_settings.wireguard_constraints.use_multihop && constraints_are_wireguard_compatible(
        relay_settings,
    )
}

/// Tells whether settings make bridges possible.
pub fn constraints_are_bridge_compatible(settings: &Settings) -> (compatible: bool)
    ensures
        compatible == bridge_compatible(*settings),
{
    match &settings.relay_settings {
        RelaySettings::Normal(relay_settings) => {
            let bridges_on = match settings.bridge_state {
                BridgeState::Off => false,
                BridgeState::Auto => true,
                BridgeState::On => true,
            };
            bridges_on && constraints_are_openvpn_compatible(relay_settings)
        },
        RelaySettings::CustomTunnelEndpoint => false,
    }
}

/// Tells whether the change from `prev` to `new` asks for a new tunnel
/// because a custom list that is in use has changed.
pub fn change_needs_reconnect(prev: &Settings, new: &Settings) -> (reconnect: bool)
    ensures
        reconnect == needs_reconnect(*prev, *new),
{
    let mut need_to_reconnect = false;

    let relay_settings = match &new.relay_settings {
        RelaySettings::Normal(relay_settings) => relay_settings,
        RelaySettings::CustomTunnelEndpoint => {
            return false;
        },
    };

    if location_changed(prev, new, &relay_settings.location) {
        need_to_reconnect = true;
    }
    if constraints_are_multihop_compatible(relay_settings) {
        if location_changed(prev, new, &relay_settings.wireguard_constraints.entry_location) {
            need_to_reconnect = true;
        }
    }
    if constraints_are_bridge_compatible(new) {
        match &new.bridge_settings {
            ResolvedBridgeSettings::Normal { location } => {
                if location_changed(prev, new, location) {
                    need_to_reconnect = true;
                }
            },
            ResolvedBridgeSettings::Custom => {},
            ResolvedBridgeSettings::Unresolved => {},
        }
    }

    need_to_reconnect
}

} // verus!
