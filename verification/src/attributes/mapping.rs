//! Where each attribute of the Active Worlds interface is read from and
//! written to: the Virtual Paradise SDK, a fixed answer, or the instance's own
//! attribute buffer.
use vstd::prelude::*;
use crate::attributes::{into_req, spec_read, Attrib, AttribBuffer, AttribModel, AttribValue, Text};
use crate::sdk::{AwAttribute, VpFloatAttribute, VpIntAttribute, VpStringAttribute};

verus! {

/// Where a read of an attribute gets its value.
#[derive(Debug)]
pub enum ReadSource {
    /// The instance's attribute buffer.
    Stored,
    /// A fixed value, the same for every instance.
    Fixed(AttribValue),
    /// An integer attribute of the Virtual Paradise instance.
    VpInt(VpIntAttribute),
    /// A string attribute of the Virtual Paradise instance.
    VpString(VpStringAttribute),
    /// A coordinate of the Virtual Paradise instance, converted from metres
    /// to the millimetres of the Active Worlds interface.
    VpCoordinate(VpFloatAttribute),
    /// The citizen number of the current avatar: zero for a bot (its name
    /// starts with `[`), else the user id of the Virtual Paradise instance.
    AvatarCitizen,
}

/// `ReadSource` with a fixed value given by what it holds.
pub enum ReadPlan {
    Stored,
    Fixed(AttribModel),
    VpInt(VpIntAttribute),
    VpString(VpStringAttribute),
    VpCoordinate(VpFloatAttribute),
    AvatarCitizen,
}

impl View for ReadSource {
    type V = ReadPlan;

    open spec fn view(&self) -> ReadPlan {
        match self {
            ReadSource::Stored => ReadPlan::Stored,
            ReadSource::Fixed(v) => ReadPlan::Fixed(v@),
            ReadSource::VpInt(a) => ReadPlan::VpInt(*a),
            ReadSource::VpString(a) => ReadPlan::VpString(*a),
            ReadSource::VpCoordinate(a) => ReadPlan::VpCoordinate(*a),
            ReadSource::AvatarCitizen => ReadPlan::AvatarCitizen,
        }
    }
}

/// The build number reported for the world; 69 is the latest build of 3.6,
/// which bots need to see before they whisper.
pub const WORLD_BUILD_NUMBER: i32 = 69;

/// The right granted to everybody.
pub open spec fn everybody() -> Seq<u8> {
    seq![42u8]
}

/// Where a read of each attribute gets its value.
pub open spec fn spec_read_source(attribute: AwAttribute) -> ReadPlan {
    match attribute {
        AwAttribute::CitizenNumber => ReadPlan::VpInt(VpIntAttribute::UserId),
        AwAttribute::WorldName => ReadPlan::VpString(VpStringAttribute::WorldName),
        AwAttribute::WorldBuildNumber => ReadPlan::Fixed(AttribModel::Int(WORLD_BUILD_NUMBER)),
        AwAttribute::ChatMessage => ReadPlan::VpString(VpStringAttribute::ChatMessage),
        AwAttribute::AvatarName => ReadPlan::VpString(VpStringAttribute::AvatarName),
        AwAttribute::AvatarSession => ReadPlan::VpInt(VpIntAttribute::AvatarSession),
        AwAttribute::ChatSession => ReadPlan::VpInt(VpIntAttribute::AvatarSession),
        AwAttribute::WorldSpeakCapability => ReadPlan::Fixed(AttribModel::Int(1)),
        AwAttribute::WorldAllowTouristWhisper => ReadPlan::Fixed(AttribModel::Int(1)),
        AwAttribute::WorldAllowCitizenWhisper => ReadPlan::Fixed(AttribModel::Int(1)),
        AwAttribute::WorldSpeakRight => ReadPlan::Fixed(AttribModel::String(everybody())),
        AwAttribute::WorldBuildRight => ReadPlan::Fixed(AttribModel::String(everybody())),
        AwAttribute::WorldEnterRight => ReadPlan::Fixed(AttribModel::String(everybody())),
        AwAttribute::WorldSpecialObjectsRight => ReadPlan::Fixed(AttribModel::String(everybody())),
        AwAttribute::WorldBotsRight => ReadPlan::Fixed(AttribModel::String(everybody())),
        AwAttribute::WorldSpecialCommandsRight => ReadPlan::Fixed(AttribModel::String(everybody())),
        AwAttribute::MyX => ReadPlan::VpCoordinate(VpFloatAttribute::MyX),
        AwAttribute::MyZ => ReadPlan::VpCoordinate(VpFloatAttribute::MyZ),
        AwAttribute::MyY => ReadPlan::VpCoordinate(VpFloatAttribute::MyY),
        AwAttribute::AvatarX => ReadPlan::VpCoordinate(VpFloatAttribute::AvatarX),
        AwAttribute::AvatarZ => ReadPlan::VpCoordinate(VpFloatAttribute::AvatarZ),
        AwAttribute::AvatarY => ReadPlan::VpCoordinate(VpFloatAttribute::AvatarY),
        AwAttribute::AvatarPrivilege => ReadPlan::VpInt(VpIntAttribute::UserId),
        AwAttribute::AvatarCitizen => ReadPlan::AvatarCitizen,
        _ => ReadPlan::Stored,
    }
}

/// Where a read of `attribute` gets its value.
pub fn read_source(attribute: AwAttribute) -> (source: ReadSource)
    ensures
        source@ == spec_read_source(attribute),
{
    match attribute {
        AwAttribute::CitizenNumber | AwAttribute::AvatarPrivilege => ReadSource::VpInt(
            VpIntAttribute::UserId,
        ),
        AwAttribute::AvatarSession | AwAttribute::ChatSession => ReadSource::VpInt(
            VpIntAttribute::AvatarSession,
        ),
        AwAttribute::WorldName => ReadSource::VpString(VpStringAttribute::WorldName),
        AwAttribute::ChatMessage => ReadSource::VpString(VpStringAttribute::ChatMessage),
        AwAttribute::AvatarName => ReadSource::VpString(VpStringAttribute::AvatarName),
        AwAttribute::WorldBuildNumber => ReadSource::Fixed(AttribValue::Int(WORLD_BUILD_NUMBER)),
        AwAttribute::WorldSpeakCapability | AwAttribute::WorldAllowTouristWhisper
        | AwAttribute::WorldAllowCitizenWhisper => ReadSource::Fixed(AttribValue::Int(1)),
        AwAttribute::WorldSpeakRight | AwAttribute::WorldBuildRight
        | AwAttribute::WorldEnterRight | AwAttribute::WorldSpecialObjectsRight
        | AwAttribute::WorldBotsRight | AwAttribute::WorldSpecialCommandsRight => {
            let star = vec![42u8];
            assert(star@ =~= everybody());
            ReadSource::Fixed(AttribValue::String(star))
        },
        AwAttribute::MyX => ReadSource::VpCoordinate(VpFloatAttribute::MyX),
        AwAttribute::MyY => ReadSource::VpCoordinate(VpFloatAttribute::MyY),
        AwAttribute::MyZ => ReadSource::VpCoordinate(VpFloatAttribute::MyZ),
        AwAttribute::AvatarX => ReadSource::VpCoordinate(VpFloatAttribute::AvatarX),
        AwAttribute::AvatarY => ReadSource::VpCoordinate(VpFloatAttribute::AvatarY),
        AwAttribute::AvatarZ => ReadSource::VpCoordinate(VpFloatAttribute::AvatarZ),
        AwAttribute::AvatarCitizen => ReadSource::AvatarCitizen,
        _ => ReadSource::Stored,
    }
}

/// Where a write of an attribute puts its value.
#[derive(Debug, PartialEq, Eq, Structural, Clone, Copy)]
pub enum WriteTarget {
    /// The instance's attribute buffer.
    Stored,
    /// A string attribute of the Virtual Paradise instance.
    VpString(VpStringAttribute),
    /// A coordinate of the Virtual Paradise instance, converted from the
    /// millimetres of the Active Worlds interface to metres.
    VpCoordinate(VpFloatAttribute),
}

/// Where a write of each attribute puts its value.
pub open spec fn spec_write_target(attribute: AwAttribute) -> WriteTarget {
    match attribute {
        AwAttribute::WorldName => WriteTarget::VpString(VpStringAttribute::WorldName),
        AwAttribute::ChatMessage => WriteTarget::VpString(VpStringAttribute::ChatMessage),
        AwAttribute::MyX => WriteTarget::VpCoordinate(VpFloatAttribute::MyX),
        AwAttribute::MyZ => WriteTarget::VpCoordinate(VpFloatAttribute::MyZ),
        AwAttribute::MyY => WriteTarget::VpCoordinate(VpFloatAttribute::MyY),
        _ => WriteTarget::Stored,
    }
}

/// Where a write of `attribute` puts its value.
pub fn write_target(attribute: AwAttribute) -> (target: WriteTarget)
    ensures
        target == spec_write_target(attribute),
{
    match attribute {
        AwAttribute::WorldName => WriteTarget::VpString(VpStringAttribute::WorldName),
        AwAttribute::ChatMessage => WriteTarget::VpString(VpStringAttribute::ChatMessage),
        AwAttribute::MyX => WriteTarget::VpCoordinate(VpFloatAttribute::MyX),
        AwAttribute::MyY => WriteTarget::VpCoordinate(VpFloatAttribute::MyY),
        AwAttribute::MyZ => WriteTarget::VpCoordinate(VpFloatAttribute::MyZ),
        _ => WriteTarget::Stored,
    }
}

/// Whether `value` is what reading a stored value `stored` as type `T`
/// gives: the value when `T` accepts it, with the same stored form, and
/// nothing otherwise.
pub open spec fn spec_reads_as<T: Attrib>(value: Option<T>, stored: AttribModel) -> bool {
    &&& (value is Some <==> T::accepts(stored))
    &&& (value matches Some(v) ==> v.stored() == stored)
}

/// Reads an attribute as type `T` from where `source` (the `read_source` of
/// `attribute`) says: the instance's buffer, the fixed value, or, for the
/// sources in the Virtual Paradise SDK, `sdk_value`, the value read there.
/// Only a read from the buffer changes the buffer.
pub fn read_attribute<T: Attrib>(
    buffer: &mut AttribBuffer,
    attribute: AwAttribute,
    source: ReadSource,
    sdk_value: Option<AttribValue>,
) -> (value: Option<T>)
    ensures
        match source@ {
            ReadPlan::Stored => {
                &&& final(buffer)@ == old(buffer)@.insert(
                    attribute,
                    spec_read::<T>(old(buffer)@, attribute),
                )
                &&& spec_reads_as(value, spec_read::<T>(old(buffer)@, attribute))
            },
            ReadPlan::Fixed(stored) => {
                &&& final(buffer)@ == old(buffer)@
                &&& spec_reads_as(value, stored)
            },
            _ => {
                &&& final(buffer)@ == old(buffer)@
                &&& match sdk_value {
                    Some(v) => spec_reads_as(value, v@),
                    None => value is None,
                }
            },
        },
{
    match source {
        ReadSource::Stored => buffer.get(attribute),
        ReadSource::Fixed(v) => T::from_attrib(&v),
        _ => match sdk_value {
            Some(v) => T::from_attrib(&v),
            None => None,
        },
    }
}

/// What a write of an attribute does, once decided: stored in the buffer
/// already, or a value to hand to the Virtual Paradise SDK, nothing when the
/// value written is not of the type that attribute takes there.
#[derive(Debug)]
pub enum WriteOutcome {
    Stored,
    VpString(VpStringAttribute, Option<Text>),
    VpCoordinate(VpFloatAttribute, Option<i32>),
}

/// Writes `value` to `attribute`: into the buffer when the attribute is kept
/// there, else converted for the Virtual Paradise attribute that
/// `write_target` names (a string attribute takes text, a coordinate an
/// integer number of millimetres).
pub fn write_attribute<T: Attrib>(buffer: &mut AttribBuffer, attribute: AwAttribute, value: T) -> (outcome: WriteOutcome)
    ensures
        match spec_write_target(attribute) {
            WriteTarget::Stored => {
                &&& final(buffer)@ == old(buffer)@.insert(attribute, value.stored())
                &&& outcome is Stored
            },
            WriteTarget::VpString(a) => {
                &&& final(buffer)@ == old(buffer)@
                &&& outcome matches WriteOutcome::VpString(b, text) && a == b && spec_reads_as(
                    text,
                    value.stored(),
                )
            },
            WriteTarget::VpCoordinate(a) => {
                &&& final(buffer)@ == old(buffer)@
                &&& outcome matches WriteOutcome::VpCoordinate(b, millimetres) && a == b
                    && spec_reads_as(millimetres, value.stored())
            },
        },
{
    match write_target(attribute) {
        WriteTarget::Stored => {
            buffer.set(attribute, value);
            WriteOutcome::Stored
        },
        WriteTarget::VpString(a) => WriteOutcome::VpString(a, into_req(value)),
        WriteTarget::VpCoordinate(a) => WriteOutcome::VpCoordinate(a, into_req(value)),
    }
}

/// Whether an avatar name is that of a bot: it starts with `[`.
pub fn name_marks_bot(name: &Vec<u8>) -> (bot: bool)
    ensures
        bot == (name@.len() > 0 && name@[0] == 91u8),
{
    name.len() > 0 && name[0] == 91u8
}

/// The citizen number reported for the current avatar: zero for a bot, else
/// `user_id`.
pub fn avatar_citizen_number(name: &Vec<u8>, user_id: i32) -> (number: i32)
    ensures
        number == (if name@.len() > 0 && name@[0] == 91u8 { 0 } else { user_id }),
{
    if name_marks_bot(name) {
        0
    } else {
        user_id
    }
}

/// Reads and writes of an attribute meet in one place: an attribute read
/// from the buffer is written to the buffer, and an attribute written to the
/// Virtual Paradise SDK is read from the same attribute there. So whatever is
/// written to an attribute that reads from where it was written is read back.
pub proof fn lemma_reads_meet_writes(attribute: AwAttribute)
    ensures
        spec_read_source(attribute) == ReadPlan::Stored ==> spec_write_target(attribute)
            == WriteTarget::Stored,
        spec_write_target(attribute) matches WriteTarget::VpString(a) ==> spec_read_source(
            attribute,
        ) == ReadPlan::VpString(a),
        spec_write_target(attribute) matches WriteTarget::VpCoordinate(a) ==> spec_read_source(
            attribute,
        ) == ReadPlan::VpCoordinate(a),
{
}

/// Which attributes read which integer of the Virtual Paradise instance:
/// only the citizen number and the avatar privilege read the user id, and
/// only the avatar session and the chat session read the avatar session.
pub proof fn lemma_integer_readers(attribute: AwAttribute)
    ensures
        spec_read_source(attribute) == ReadPlan::VpInt(VpIntAttribute::UserId) <==> (attribute
            == AwAttribute::CitizenNumber || attribute == AwAttribute::AvatarPrivilege),
        spec_read_source(attribute) == ReadPlan::VpInt(VpIntAttribute::AvatarSession) <==> (
        attribute == AwAttribute::AvatarSession || attribute == AwAttribute::ChatSession),
{
}

/// Each string and coordinate of the Virtual Paradise instance is read by
/// the one Active Worlds attribute of the same meaning, and by no other.
pub proof fn lemma_sdk_readers_match_names(attribute: AwAttribute)
    ensures
        spec_read_source(attribute) == ReadPlan::VpString(VpStringAttribute::WorldName) <==> attribute
            == AwAttribute::WorldName,
        spec_read_source(attribute) == ReadPlan::VpString(VpStringAttribute::ChatMessage) <==> attribute
            == AwAttribute::ChatMessage,
        spec_read_source(attribute) == ReadPlan::VpString(VpStringAttribute::AvatarName) <==> attribute
            == AwAttribute::AvatarName,
        spec_read_source(attribute) == ReadPlan::VpCoordinate(VpFloatAttribute::MyX) <==> attribute
            == AwAttribute::MyX,
        spec_read_source(attribute) == ReadPlan::VpCoordinate(VpFloatAttribute::MyY) <==> attribute
            == AwAttribute::MyY,
        spec_read_source(attribute) == ReadPlan::VpCoordinate(VpFloatAttribute::MyZ) <==> attribute
            == AwAttribute::MyZ,
        spec_read_source(attribute) == ReadPlan::VpCoordinate(VpFloatAttribute::AvatarX) <==> attribute
            == AwAttribute::AvatarX,
        spec_read_source(attribute) == ReadPlan::VpCoordinate(VpFloatAttribute::AvatarY) <==> attribute
            == AwAttribute::AvatarY,
        spec_read_source(attribute) == ReadPlan::VpCoordinate(VpFloatAttribute::AvatarZ) <==> attribute
            == AwAttribute::AvatarZ,
{
}

/// What the bot itself can change is written where it is read: an attribute
/// read from the world name, the chat message or one of the bot's own
/// coordinates is written to that same Virtual Paradise attribute; the
/// avatar's name and the coordinates of other avatars are read-only there.
pub proof fn lemma_own_attributes_written_where_read(attribute: AwAttribute)
    ensures
        spec_read_source(attribute) == ReadPlan::VpString(VpStringAttribute::WorldName)
            ==> spec_write_target(attribute) == WriteTarget::VpString(VpStringAttribute::WorldName),
        spec_read_source(attribute) == ReadPlan::VpString(VpStringAttribute::ChatMessage)
            ==> spec_write_target(attribute) == WriteTarget::VpString(VpStringAttribute::ChatMessage),
        spec_read_source(attribute) == ReadPlan::VpCoordinate(VpFloatAttribute::MyX)
            ==> spec_write_target(attribute) == WriteTarget::VpCoordinate(VpFloatAttribute::MyX),
        spec_read_source(attribute) == ReadPlan::VpCoordinate(VpFloatAttribute::MyY)
            ==> spec_write_target(attribute) == WriteTarget::VpCoordinate(VpFloatAttribute::MyY),
        spec_read_source(attribute) == ReadPlan::VpCoordinate(VpFloatAttribute::MyZ)
            ==> spec_write_target(attribute) == WriteTarget::VpCoordinate(VpFloatAttribute::MyZ),
        spec_write_target(attribute) != WriteTarget::VpString(VpStringAttribute::AvatarName),
        spec_write_target(attribute) != WriteTarget::VpCoordinate(VpFloatAttribute::AvatarX),
        spec_write_target(attribute) != WriteTarget::VpCoordinate(VpFloatAttribute::AvatarY),
        spec_write_target(attribute) != WriteTarget::VpCoordinate(VpFloatAttribute::AvatarZ),
{
}

/// For an attribute kept in the buffer, what a write stores a read of the
/// same type gives back: the write goes to the buffer, and the read answers
/// from it with the value written.
pub proof fn lemma_write_then_read<T: Attrib>(
    buffer: Map<AwAttribute, AttribModel>,
    attribute: AwAttribute,
    value: T,
)
    requires
        spec_read_source(attribute) == ReadPlan::Stored,
    ensures
        spec_write_target(attribute) == WriteTarget::Stored,
        spec_reads_as(
            Some(value),
            spec_read::<T>(buffer.insert(attribute, value.stored()), attribute),
        ),
{
    T::lemma_stored_accepted(&value);
}

} // verus!
