//! Attribute values and the per-instance buffer that holds the attributes the
//! Virtual Paradise SDK does not keep itself.
pub mod mapping;

use vstd::prelude::*;
use crate::keyed::KeyedTable;
use crate::sdk::AwAttribute;

verus! {

/// A stored attribute value. A C string is held as its bytes (without the
/// terminating zero), a floating-point value as the bits of its `f32`.
#[derive(Debug)]
pub enum AttribValue {
    Int(i32),
    String(Vec<u8>),
    Float(u32),
    Data(Vec<u8>),
}

/// What an attribute value holds, as plain values.
pub enum AttribModel {
    Int(i32),
    String(Seq<u8>),
    Float(u32),
    Data(Seq<u8>),
}

impl View for AttribValue {
    type V = AttribModel;

    open spec fn view(&self) -> AttribModel {
        match self {
            AttribValue::Int(v) => AttribModel::Int(*v),
            AttribValue::String(v) => AttribModel::String(v@),
            AttribValue::Float(v) => AttribModel::Float(*v),
            AttribValue::Data(v) => AttribModel::Data(v@),
        }
    }
}

/// A C string attribute, held as its bytes without the terminating zero.
#[derive(Debug)]
pub struct Text(pub Vec<u8>);

/// A floating-point attribute, held as the bits of its `f32`.
#[derive(Debug, Clone, Copy)]
pub struct FloatBits(pub u32);

/// A type whose values can be stored as attributes and read back.
pub trait Attrib: Sized {
    /// The stored form of a value.
    spec fn stored(&self) -> AttribModel;

    /// Whether a stored value is of this type.
    spec fn accepts(value: AttribModel) -> bool;

    /// The stored form of this type's default value.
    spec fn default_stored() -> AttribModel;

    /// A value of this type is stored in a form this type accepts.
    proof fn lemma_stored_accepted(value: &Self)
        ensures
            Self::accepts(value.stored()),
    ;

    fn to_attrib(self) -> (value: AttribValue)
        ensures
            value@ == self.stored(),
    ;

    fn from_attrib(orig: &AttribValue) -> (value: Option<Self>)
        ensures
            value is Some <==> Self::accepts(orig@),
            value matches Some(v) ==> v.stored() == orig@,
    ;

    fn default() -> (value: Self)
        ensures
            value.stored() == Self::default_stored(),
    ;
}

impl Attrib for i32 {
    open spec fn stored(&self) -> AttribModel {
        AttribModel::Int(*self)
    }

    open spec fn accepts(value: AttribModel) -> bool {
        value is Int
    }

    open spec fn default_stored() -> AttribModel {
        AttribModel::Int(0)
    }

    proof fn lemma_stored_accepted(value: &Self) {
    }

    fn to_attrib(self) -> (value: AttribValue) {
        AttribValue::Int(self)
    }

    fn from_attrib(orig: &AttribValue) -> (value: Option<Self>) {
        match orig {
            AttribValue::Int(val) => Some(*val),
            _ => None,
        }
    }

    fn default() -> (value: Self) {
        0
    }
}

impl Attrib for Text {
    open spec fn stored(&self) -> AttribModel {
        AttribModel::String(self.0@)
    }

    open spec fn accepts(value: AttribModel) -> bool {
        value is String
    }

    open spec fn default_stored() -> AttribModel {
        AttribModel::String(Seq::empty())
    }

    proof fn lemma_stored_accepted(value: &Self) {
    }

    fn to_attrib(self) -> (value: AttribValue) {
        AttribValue::String(self.0)
    }

    fn from_attrib(orig: &AttribValue) -> (value: Option<Self>) {
        match orig {
            AttribValue::String(val) => Some(Text(copy_bytes(val))),
            _ => None,
        }
    }

    fn default() -> (value: Self) {
        Text(Vec::new())
    }
}

impl Attrib for FloatBits {
    open spec fn stored(&self) -> AttribModel {
        AttribModel::Float(self.0)
    }

    open spec fn accepts(value: AttribModel) -> bool {
        value is Float
    }

    open spec fn default_stored() -> AttribModel {
        AttribModel::Float(0)
    }

    proof fn lemma_stored_accepted(value: &Self) {
    }

    fn to_attrib(self) -> (value: AttribValue) {
        AttribValue::Float(self.0)
    }

    fn from_attrib(orig: &AttribValue) -> (value: Option<Self>) {
        match orig {
            AttribValue::Float(val) => Some(FloatBits(*val)),
            _ => None,
        }
    }

    fn default() -> (value: Self) {
        FloatBits(0)
    }
}

impl Attrib for Vec<u8> {
    open spec fn stored(&self) -> AttribModel {
        AttribModel::Data(self@)
    }

    open spec fn accepts(value: AttribModel) -> bool {
        value is Data
    }

    open spec fn default_stored() -> AttribModel {
        AttribModel::Data(Seq::empty())
    }

    proof fn lemma_stored_accepted(value: &Self) {
    }

    fn to_attrib(self) -> (value: AttribValue) {
        AttribValue::Data(self)
    }

    fn from_attrib(orig: &AttribValue) -> (value: Option<Self>) {
        match orig {
            AttribValue::Data(val) => Some(copy_bytes(val)),
            _ => None,
        }
    }

    fn default() -> (value: Self) {
        Vec::new()
    }
}

/// `value` as a value of type `Other`, when `Other` accepts its stored
/// form.
pub fn into_req<T: Attrib, Other: Attrib>(value: T) -> (converted: Option<Other>)
    ensures
        converted is Some <==> Other::accepts(value.stored()),
        converted matches Some(v) ==> v.stored() == value.stored(),
{
    let stored = value.to_attrib();
    Other::from_attrib(&stored)
}

/// A fresh vector holding the bytes of `bytes`.
pub fn copy_bytes(bytes: &Vec<u8>) -> (copy: Vec<u8>)
    ensures
        copy@ == bytes@,
{
    let mut copy: Vec<u8> = Vec::with_capacity(bytes.len());
    let mut i: usize = 0;
    while i < bytes.len()
        invariant
            i <= bytes@.len(),
            copy@ == bytes@.take(i as int),
        decreases bytes@.len() - i,
    {
        copy.push(bytes[i]);
        i += 1;
        assert(copy@ =~= bytes@.take(i as int));
    }
    assert(bytes@.take(bytes@.len() as int) =~= bytes@);
    copy
}

/// A stored value is accepted by at most one of the attribute types: a value
/// stored as one type reads back as nothing through any other.
pub proof fn lemma_kinds_exclusive(value: AttribModel)
    ensures
        <i32 as Attrib>::accepts(value) ==> !Text::accepts(value) && !FloatBits::accepts(value)
            && !<Vec<u8> as Attrib>::accepts(value),
        Text::accepts(value) ==> !FloatBits::accepts(value) && !<Vec<u8> as Attrib>::accepts(value),
        FloatBits::accepts(value) ==> !<Vec<u8> as Attrib>::accepts(value),
{
}

/// A value's own type accepts its stored form, so that `into_req` to its own
/// type gives `Some` of a value with the same stored form.
pub proof fn lemma_into_own_type<T: Attrib>(value: T)
    ensures
        T::accepts(value.stored()),
{
    T::lemma_stored_accepted(&value);
}

/// The stored form `get` reads for `attribute` out of a buffer: the value
/// stored there, or the default of the requested type when there is none.
pub open spec fn spec_read<T: Attrib>(buffer: Map<AwAttribute, AttribModel>, attribute: AwAttribute) -> AttribModel {
    if buffer.contains_key(attribute) {
        buffer[attribute]
    } else {
        T::default_stored()
    }
}

/// The attributes of an instance that the library keeps itself.
#[derive(Debug)]
pub struct AttribBuffer {
    pub attribs: KeyedTable<AwAttribute, AttribValue>,
}

impl View for AttribBuffer {
    type V = Map<AwAttribute, AttribModel>;

    open spec fn view(&self) -> Map<AwAttribute, AttribModel> {
        self.attribs@.map_values(|v: AttribValue| v@)
    }
}

impl AttribBuffer {
    /// An empty buffer.
    pub fn new() -> (buffer: Self)
        ensures
            buffer@ == Map::<AwAttribute, AttribModel>::empty(),
    {
        let buffer = AttribBuffer { attribs: KeyedTable::new() };
        assert(buffer@ =~= Map::<AwAttribute, AttribModel>::empty());
        buffer
    }

    /// Stores `value` as the value of `attribute`.
    pub fn set<T: Attrib>(&mut self, attribute: AwAttribute, value: T)
        ensures
            final(self)@ == old(self)@.insert(attribute, value.stored()),
    {
        let stored = value.to_attrib();
        let ghost model = stored@;
        self.attribs.insert(attribute, stored);
        assert(self@ =~= old(self)@.insert(attribute, model));
    }

    /// Forgets the value of `attribute`.
    pub fn remove(&mut self, attribute: AwAttribute)
        ensures
            final(self)@ == old(self)@.remove(attribute),
    {
        let _ = self.attribs.remove(&attribute);
        assert(self@ =~= old(self)@.remove(attribute));
    }

    /// Reads `attribute` as a value of type `T`. An attribute never set is
    /// first given the default of `T`; the result is nothing when the value
    /// stored is of another type.
    pub fn get<T: Attrib>(&mut self, attribute: AwAttribute) -> (value: Option<T>)
        ensures
            final(self)@ == old(self)@.insert(attribute, spec_read::<T>(old(self)@, attribute)),
            value is Some <==> T::accepts(spec_read::<T>(old(self)@, attribute)),
            value matches Some(v) ==> v.stored() == spec_read::<T>(old(self)@, attribute),
    {
        if !self.attribs.contains_key(&attribute) {
            let fallback = T::default();
            let stored = fallback.to_attrib();
            self.attribs.insert(attribute, stored);
        }
        assert(self@ =~= old(self)@.insert(attribute, spec_read::<T>(old(self)@, attribute)));
        match self.attribs.get(&attribute) {
            Some(stored) => T::from_attrib(stored),
            None => None,
        }
    }
}

/// What `set` stores, `get` of the same type reads back: the value read is
/// the value written, and it is of the type asked for.
pub proof fn lemma_set_then_get<T: Attrib>(buffer: Map<AwAttribute, AttribModel>, attribute: AwAttribute, value: T)
    ensures
        spec_read::<T>(buffer.insert(attribute, value.stored()), attribute) == value.stored(),
        T::accepts(spec_read::<T>(buffer.insert(attribute, value.stored()), attribute)),
{
    T::lemma_stored_accepted(&value);
}

/// A second `get` of an attribute reads what the first one read.
pub proof fn lemma_get_twice<T: Attrib>(buffer: Map<AwAttribute, AttribModel>, attribute: AwAttribute)
    ensures
        spec_read::<T>(buffer.insert(attribute, spec_read::<T>(buffer, attribute)), attribute)
            == spec_read::<T>(buffer, attribute),
{
}

/// Setting or reading one attribute leaves what every other attribute reads
/// as it was.
pub proof fn lemma_other_attributes_kept<T: Attrib>(
    buffer: Map<AwAttribute, AttribModel>,
    attribute: AwAttribute,
    stored: AttribModel,
    other: AwAttribute,
)
    requires
        other != attribute,
    ensures
        spec_read::<T>(buffer.insert(attribute, stored), other) == spec_read::<T>(buffer, other),
{
}

} // verus!
