//! The identifiers of the two SDKs that the library's decisions depend on:
//! attributes, callbacks and events of the Active Worlds interface it serves,
//! and those of the Virtual Paradise SDK it calls.
use vstd::prelude::*;
use crate::keyed::TableKey;

verus! {

/// An attribute of the Active Worlds interface. The attributes that the
/// library treats in a way of its own have a variant each; any other one is
/// carried by its number in the Active Worlds SDK.
#[derive(PartialEq, Eq, Structural, Clone, Copy, Debug)]
pub enum AwAttribute {
    LoginName,
    LoginOwner,
    LoginPrivilegePassword,
    CitizenName,
    CitizenNumber,
    WorldName,
    WorldBuildNumber,
    ChatMessage,
    AvatarName,
    AvatarSession,
    ChatSession,
    WorldSpeakCapability,
    WorldAllowTouristWhisper,
    WorldAllowCitizenWhisper,
    WorldSpeakRight,
    WorldBuildRight,
    WorldEnterRight,
    WorldSpecialObjectsRight,
    WorldBotsRight,
    WorldSpecialCommandsRight,
    MyX,
    MyY,
    MyZ,
    AvatarX,
    AvatarY,
    AvatarZ,
    AvatarPrivilege,
    AvatarCitizen,
    Other(i32),
}

impl View for AwAttribute {
    type V = AwAttribute;

    open spec fn view(&self) -> AwAttribute {
        *self
    }
}

impl TableKey for AwAttribute {
    fn same_key(&self, other: &Self) -> (same: bool) {
        *self == *other
    }
}

/// An integer attribute of a Virtual Paradise instance.
#[derive(PartialEq, Eq, Structural, Clone, Copy, Debug)]
pub enum VpIntAttribute {
    UserId,
    AvatarSession,
}

/// A string attribute of a Virtual Paradise instance.
#[derive(PartialEq, Eq, Structural, Clone, Copy, Debug)]
pub enum VpStringAttribute {
    WorldName,
    ChatMessage,
    AvatarName,
}

/// A floating-point coordinate attribute of a Virtual Paradise instance.
#[derive(PartialEq, Eq, Structural, Clone, Copy, Debug)]
pub enum VpFloatAttribute {
    MyX,
    MyY,
    MyZ,
    AvatarX,
    AvatarY,
    AvatarZ,
}

/// A callback of the Active Worlds interface: the ones the library serves,
/// and any other by its number in the Active Worlds SDK.
#[derive(PartialEq, Eq, Structural, Clone, Copy, Debug)]
pub enum AwCallback {
    Login,
    Enter,
    CitizenAttributes,
    Other(i32),
}

/// An event of the Active Worlds interface: the ones the library serves, and
/// any other by its number in the Active Worlds SDK.
#[derive(PartialEq, Eq, Structural, Clone, Copy, Debug)]
pub enum AwEvent {
    Chat,
    WorldAttributes,
    AvatarAdd,
    AvatarChange,
    AvatarDelete,
    Other(i32),
}

impl View for AwCallback {
    type V = AwCallback;

    open spec fn view(&self) -> AwCallback {
        *self
    }
}

impl TableKey for AwCallback {
    fn same_key(&self, other: &Self) -> (same: bool) {
        *self == *other
    }
}

impl View for AwEvent {
    type V = AwEvent;

    open spec fn view(&self) -> AwEvent {
        *self
    }
}

impl TableKey for AwEvent {
    fn same_key(&self, other: &Self) -> (same: bool) {
        *self == *other
    }
}

/// A callback of the Virtual Paradise SDK that the library listens to.
#[derive(PartialEq, Eq, Structural, Clone, Copy, Debug)]
pub enum VpCallback {
    Login,
    Enter,
}

/// An event of the Virtual Paradise SDK that the library listens to.
#[derive(PartialEq, Eq, Structural, Clone, Copy, Debug)]
pub enum VpEvent {
    Chat,
    WorldSettingsChanged,
    AvatarAdd,
    AvatarChange,
    AvatarDelete,
    UserAttributes,
}

/// A callback or an event of the Virtual Paradise SDK, as something a
/// handler can be installed on.
#[derive(PartialEq, Eq, Structural, Clone, Copy, Debug)]
pub enum VpHook {
    Callback(VpCallback),
    Event(VpEvent),
}

impl View for VpHook {
    type V = VpHook;

    open spec fn view(&self) -> VpHook {
        *self
    }
}

impl TableKey for VpHook {
    fn same_key(&self, other: &Self) -> (same: bool) {
        *self == *other
    }
}

} // verus!
