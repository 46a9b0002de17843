//! Helper types and utilities
//!
//! Integers in the memory that is shared with a device have a fixed byte order, whatever the
//! order of the machine. The types of this module hold such integers as they are in memory.
use vstd::prelude::*;

verus! {

/// `v` with the order of its bytes reversed.
pub open spec fn swap16(v: u16) -> u16 {
    ((v & 0xff) << 8) | ((v & 0xff00) >> 8)
}

/// `v` with the order of its bytes reversed.
pub open spec fn swap32(v: u32) -> u32 {
    ((v & 0xff) << 24)
        | ((v & 0xff00) << 8)
        | ((v & 0xff0000) >> 8)
        | ((v & 0xff000000) >> 24)
}

/// `v` with the order of its bytes reversed.
pub open spec fn swap64(v: u64) -> u64 {
    ((v & 0xff) << 56)
        | ((v & 0xff00) << 40)
        | ((v & 0xff0000) << 24)
        | ((v & 0xff000000) << 8)
        | ((v & 0xff00000000) >> 8)
        | ((v & 0xff0000000000) >> 24)
        | ((v & 0xff000000000000) >> 40)
        | ((v & 0xff00000000000000) >> 56)
}

/// The bytes of `v`, from the least significant to the most significant.
pub open spec fn digits16(v: u16) -> Seq<u8> {
    seq![v as u8, (v >> 8) as u8]
}

/// The bytes that an integer `v` of this machine has in memory.
pub open spec fn memory16(v: u16) -> Seq<u8> {
    match vstd::endian::endianness() {
        vstd::endian::Endian::Little => digits16(v),
        vstd::endian::Endian::Big => digits16(v).reverse(),
    }
}

/// Converts between the byte order of this machine and little endian.
pub open spec fn le16(v: u16) -> u16 {
    match vstd::endian::endianness() {
        vstd::endian::Endian::Little => v,
        vstd::endian::Endian::Big => swap16(v),
    }
}

/// Converts between the byte order of this machine and big endian.
pub open spec fn be16(v: u16) -> u16 {
    match vstd::endian::endianness() {
        vstd::endian::Endian::Little => swap16(v),
        vstd::endian::Endian::Big => v,
    }
}

/// The bytes of `v`, from the least significant to the most significant.
pub open spec fn digits32(v: u32) -> Seq<u8> {
    seq![v as u8, (v >> 8) as u8, (v >> 16) as u8, (v >> 24) as u8]
}

/// The bytes that an integer `v` of this machine has in memory.
pub open spec fn memory32(v: u32) -> Seq<u8> {
    match vstd::endian::endianness() {
        vstd::endian::Endian::Little => digits32(v),
        vstd::endian::Endian::Big => digits32(v).reverse(),
    }
}

/// Converts between the byte order of this machine and little endian.
pub open spec fn le32(v: u32) -> u32 {
    match vstd::endian::endianness() {
        vstd::endian::Endian::Little => v,
        vstd::endian::Endian::Big => swap32(v),
    }
}

/// Converts between the byte order of this machine and big endian.
pub open spec fn be32(v: u32) -> u32 {
    match vstd::endian::endianness() {
        vstd::endian::Endian::Little => swap32(v),
        vstd::endian::Endian::Big => v,
    }
}

/// The bytes of `v`, from the least significant to the most significant.
pub open spec fn digits64(v: u64) -> Seq<u8> {
    seq![
        v as u8,
        (v >> 8) as u8,
        (v >> 16) as u8,
        (v >> 24) as u8,
        (v >> 32) as u8,
        (v >> 40) as u8,
        (v >> 48) as u8,
        (v >> 56) as u8,
    ]
}

/// The bytes that an integer `v` of this machine has in memory.
pub open spec fn memory64(v: u64) -> Seq<u8> {
    match vstd::endian::endianness() {
        vstd::endian::Endian::Little => digits64(v),
        vstd::endian::Endian::Big => digits64(v).reverse(),
    }
}

/// Converts between the byte order of this machine and little endian.
pub open spec fn le64(v: u64) -> u64 {
    match vstd::endian::endianness() {
        vstd::endian::Endian::Little => v,
        vstd::endian::Endian::Big => swap64(v),
    }
}

/// Converts between the byte order of this machine and big endian.
pub open spec fn be64(v: u64) -> u64 {
    match vstd::endian::endianness() {
        vstd::endian::Endian::Little => swap64(v),
        vstd::endian::Endian::Big => v,
    }
}

/// `u16::to_le` converts an integer from the byte order of the machine to little endian: it
/// changes nothing on a little endian machine and reverses the bytes on any other.
pub assume_specification[ u16::to_le ](v: u16) -> (r: u16)
    ensures
        r == le16(v),
;

/// `u16::from_le` converts an integer from little endian to the byte order of the machine: it
/// changes nothing on a little endian machine and reverses the bytes on any other.
pub assume_specification[ u16::from_le ](v: u16) -> (r: u16)
    ensures
        r == le16(v),
;

/// `u16::to_be` converts an integer from the byte order of the machine to big endian: it
/// changes nothing on a big endian machine and reverses the bytes on any other.
pub assume_specification[ u16::to_be ](v: u16) -> (r: u16)
    ensures
        r == be16(v),
;

/// `u16::from_be` converts an integer from big endian to the byte order of the machine: it
/// changes nothing on a big endian machine and reverses the bytes on any other.
pub assume_specification[ u16::from_be ](v: u16) -> (r: u16)
    ensures
        r == be16(v),
;

/// `u32::to_le` converts an integer from the byte order of the machine to little endian: it
/// changes nothing on a little endian machine and reverses the bytes on any other.
pub assume_specification[ u32::to_le ](v: u32) -> (r: u32)
    ensures
        r == le32(v),
;

/// `u32::from_le` converts an integer from little endian to the byte order of the machine: it
/// changes nothing on a little endian machine and reverses the bytes on any other.
pub assume_specification[ u32::from_le ](v: u32) -> (r: u32)
    ensures
        r == le32(v),
;

/// `u32::to_be` converts an integer from the byte order of the machine to big endian: it
/// changes nothing on a big endian machine and reverses the bytes on any other.
pub assume_specification[ u32::to_be ](v: u32) -> (r: u32)
    ensures
        r == be32(v),
;

/// `u32::from_be` converts an integer from big endian to the byte order of the machine: it
/// changes nothing on a big endian machine and reverses the bytes on any other.
pub assume_specification[ u32::from_be ](v: u32) -> (r: u32)
    ensures
        r == be32(v),
;

/// `u64::to_le` converts an integer from the byte order of the machine to little endian: it
/// changes nothing on a little endian machine and reverses the bytes on any other.
pub assume_specification[ u64::to_le ](v: u64) -> (r: u64)
    ensures
        r == le64(v),
;

/// `u64::from_le` converts an integer from little endian to the byte order of the machine: it
/// changes nothing on a little endian machine and reverses the bytes on any other.
pub assume_specification[ u64::from_le ](v: u64) -> (r: u64)
    ensures
        r == le64(v),
;

/// `u64::to_be` converts an integer from the byte order of the machine to big endian: it
/// changes nothing on a big endian machine and reverses the bytes on any other.
pub assume_specification[ u64::to_be ](v: u64) -> (r: u64)
    ensures
        r == be64(v),
;

/// `u64::from_be` converts an integer from big endian to the byte order of the machine: it
/// changes nothing on a big endian machine and reverses the bytes on any other.
pub assume_specification[ u64::from_be ](v: u64) -> (r: u64)
    ensures
        r == be64(v),
;

/// Reversing the bytes of an integer twice gives the integer back.
pub proof fn law_swap16_involutive(v: u16)
    ensures
        swap16(swap16(v)) == v,
{
    assert(swap16(swap16(v)) == v) by (bit_vector);
}

/// Reversing the bytes of an integer reverses the sequence of its bytes.
pub proof fn law_swap16_digits(v: u16)
    ensures
        digits16(swap16(v)) == digits16(v).reverse(),
{
    let s = swap16(v);
    assert({
        &&& s as u8 == (v >> 8) as u8
        &&& (s >> 8) as u8 == v as u8
    }) by (bit_vector)
        requires
            s == swap16(v),
    ;
    assert(digits16(s) =~= digits16(v).reverse());
}

/// Reversing the bytes of an integer twice gives the integer back.
pub proof fn law_swap32_involutive(v: u32)
    ensures
        swap32(swap32(v)) == v,
{
    assert(swap32(swap32(v)) == v) by (bit_vector);
}

/// Reversing the bytes of an integer reverses the sequence of its bytes.
pub proof fn law_swap32_digits(v: u32)
    ensures
        digits32(swap32(v)) == digits32(v).reverse(),
{
    let s = swap32(v);
    assert({
        &&& s as u8 == (v >> 24) as u8
        &&& (s >> 8) as u8 == (v >> 16) as u8
        &&& (s >> 16) as u8 == (v >> 8) as u8
        &&& (s >> 24) as u8 == v as u8
    }) by (bit_vector)
        requires
            s == swap32(v),
    ;
    assert(digits32(s) =~= digits32(v).reverse());
}

/// Reversing the bytes of an integer twice gives the integer back.
pub proof fn law_swap64_involutive(v: u64)
    ensures
        swap64(swap64(v)) == v,
{
    assert(swap64(swap64(v)) == v) by (bit_vector);
}

/// Reversing the bytes of an integer reverses the sequence of its bytes.
pub proof fn law_swap64_digits(v: u64)
    ensures
        digits64(swap64(v)) == digits64(v).reverse(),
{
    let s = swap64(v);
    assert({
        &&& s as u8 == (v >> 56) as u8
        &&& (s >> 8) as u8 == (v >> 48) as u8
        &&& (s >> 16) as u8 == (v >> 40) as u8
        &&& (s >> 24) as u8 == (v >> 32) as u8
        &&& (s >> 32) as u8 == (v >> 24) as u8
        &&& (s >> 40) as u8 == (v >> 16) as u8
        &&& (s >> 48) as u8 == (v >> 8) as u8
        &&& (s >> 56) as u8 == v as u8
    }) by (bit_vector)
        requires
            s == swap64(v),
    ;
    assert(digits64(s) =~= digits64(v).reverse());
}

/// An unsigned integer type with an explicit endianness.
///
/// The field is the integer that has the bytes of the value in little endian order in memory.
#[derive(Copy, Clone, PartialEq, Eq, Structural, Debug)]
pub struct Le16(pub u16);

impl Le16 {
    /// The integer that this stands for.
    pub open spec fn value(self) -> u16 {
        le16(self.0)
    }

    /// Convert to CPU/native endianness.
    pub fn to_cpu(self) -> (v: u16)
        ensures
            v == self.value(),
    {
        u16::from_le(self.0)
    }
}

impl Default for Le16 {
    fn default() -> (v: Le16)
        ensures
            v.0 == 0,
    {
        Le16(0)
    }
}

impl PartialEq<u16> for Le16 {
    fn eq(&self, other: &u16) -> (equal: bool) {
        self.to_cpu() == *other
    }
}

impl vstd::std_specs::cmp::PartialEqSpecImpl<u16> for Le16 {
    open spec fn obeys_eq_spec() -> bool {
        true
    }

    open spec fn eq_spec(&self, other: &u16) -> bool {
        self.value() == *other
    }
}

impl PartialEq<Le16> for u16 {
    fn eq(&self, other: &Le16) -> (equal: bool) {
        *self == other.to_cpu()
    }
}

impl vstd::std_specs::cmp::PartialEqSpecImpl<Le16> for u16 {
    open spec fn obeys_eq_spec() -> bool {
        true
    }

    open spec fn eq_spec(&self, other: &Le16) -> bool {
        *self == other.value()
    }
}

impl From<Le16> for u16 {
    fn from(v: Le16) -> (r: u16) {
        v.to_cpu()
    }
}

impl vstd::std_specs::convert::FromSpecImpl<Le16> for u16 {
    open spec fn obeys_from_spec() -> bool {
        true
    }

    open spec fn from_spec(v: Le16) -> u16 {
        v.value()
    }
}

impl From<u16> for Le16 {
    fn from(v: u16) -> (r: Le16) {
        Le16(u16::to_le(v))
    }
}

impl vstd::std_specs::convert::FromSpecImpl<u16> for Le16 {
    open spec fn obeys_from_spec() -> bool {
        true
    }

    open spec fn from_spec(v: u16) -> Le16 {
        Le16(le16(v))
    }
}

/// Conversion to and from [`Le16`] loses nothing, in either direction.
pub proof fn law_le16_round_trip(v: u16, stored: Le16)
    ensures
        Le16(le16(v)).value() == v,
        Le16(le16(stored.value())) == stored,
{
    law_swap16_involutive(v);
    law_swap16_involutive(stored.0);
}

/// On every machine, the bytes of a [`Le16`] in memory are those of its value in little endian
/// order.
pub proof fn law_le16_memory(v: u16)
    ensures
        memory16(Le16(le16(v)).0) == digits16(v),
{
    law_swap16_digits(v);
    assert(digits16(v).reverse().reverse() =~= digits16(v));
}

/// An unsigned integer type with an explicit endianness.
///
/// The field is the integer that has the bytes of the value in little endian order in memory.
#[derive(Copy, Clone, PartialEq, Eq, Structural, Debug)]
pub struct Le32(pub u32);

impl Le32 {
    /// The integer that this stands for.
    pub open spec fn value(self) -> u32 {
        le32(self.0)
    }

    /// Convert to CPU/native endianness.
    pub fn to_cpu(self) -> (v: u32)
        ensures
            v == self.value(),
    {
        u32::from_le(self.0)
    }
}

impl Default for Le32 {
    fn default() -> (v: Le32)
        ensures
            v.0 == 0,
    {
        Le32(0)
    }
}

impl PartialEq<u32> for Le32 {
    fn eq(&self, other: &u32) -> (equal: bool) {
        self.to_cpu() == *other
    }
}

impl vstd::std_specs::cmp::PartialEqSpecImpl<u32> for Le32 {
    open spec fn obeys_eq_spec() -> bool {
        true
    }

    open spec fn eq_spec(&self, other: &u32) -> bool {
        self.value() == *other
    }
}

impl PartialEq<Le32> for u32 {
    fn eq(&self, other: &Le32) -> (equal: bool) {
        *self == other.to_cpu()
    }
}

impl vstd::std_specs::cmp::PartialEqSpecImpl<Le32> for u32 {
    open spec fn obeys_eq_spec() -> bool {
        true
    }

    open spec fn eq_spec(&self, other: &Le32) -> bool {
        *self == other.value()
    }
}

impl From<Le32> for u32 {
    fn from(v: Le32) -> (r: u32) {
        v.to_cpu()
    }
}

impl vstd::std_specs::convert::FromSpecImpl<Le32> for u32 {
    open spec fn obeys_from_spec() -> bool {
        true
    }

    open spec fn from_spec(v: Le32) -> u32 {
        v.value()
    }
}

impl From<u32> for Le32 {
    fn from(v: u32) -> (r: Le32) {
        Le32(u32::to_le(v))
    }
}

impl vstd::std_specs::convert::FromSpecImpl<u32> for Le32 {
    open spec fn obeys_from_spec() -> bool {
        true
    }

    open spec fn from_spec(v: u32) -> Le32 {
        Le32(le32(v))
    }
}

/// Conversion to and from [`Le32`] loses nothing, in either direction.
pub proof fn law_le32_round_trip(v: u32, stored: Le32)
    ensures
        Le32(le32(v)).value() == v,
        Le32(le32(stored.value())) == stored,
{
    law_swap32_involutive(v);
    law_swap32_involutive(stored.0);
}

/// On every machine, the bytes of a [`Le32`] in memory are those of its value in little endian
/// order.
pub proof fn law_le32_memory(v: u32)
    ensures
        memory32(Le32(le32(v)).0) == digits32(v),
{
    law_swap32_digits(v);
    assert(digits32(v).reverse().reverse() =~= digits32(v));
}

/// An unsigned integer type with an explicit endianness.
///
/// The field is the integer that has the bytes of the value in little endian order in memory.
#[derive(Copy, Clone, PartialEq, Eq, Structural, Debug)]
pub struct Le64(pub u64);

impl Le64 {
    /// The integer that this stands for.
    pub open spec fn value(self) -> u64 {
        le64(self.0)
    }

    /// Convert to CPU/native endianness.
    pub fn to_cpu(self) -> (v: u64)
        ensures
            v == self.value(),
    {
        u64::from_le(self.0)
    }
}

impl Default for Le64 {
    fn default() -> (v: Le64)
        ensures
            v.0 == 0,
    {
        Le64(0)
    }
}

impl PartialEq<u64> for Le64 {
    fn eq(&self, other: &u64) -> (equal: bool) {
        self.to_cpu() == *other
    }
}

impl vstd::std_specs::cmp::PartialEqSpecImpl<u64> for Le64 {
    open spec fn obeys_eq_spec() -> bool {
        true
    }

    open spec fn eq_spec(&self, other: &u64) -> bool {
        self.value() == *other
    }
}

impl PartialEq<Le64> for u64 {
    fn eq(&self, other: &Le64) -> (equal: bool) {
        *self == other.to_cpu()
    }
}

impl vstd::std_specs::cmp::PartialEqSpecImpl<Le64> for u64 {
    open spec fn obeys_eq_spec() -> bool {
        true
    }

    open spec fn eq_spec(&self, other: &Le64) -> bool {
        *self == other.value()
    }
}

impl From<Le64> for u64 {
    fn from(v: Le64) -> (r: u64) {
        v.to_cpu()
    }
}

impl vstd::std_specs::convert::FromSpecImpl<Le64> for u64 {
    open spec fn obeys_from_spec() -> bool {
        true
    }

    open spec fn from_spec(v: Le64) -> u64 {
        v.value()
    }
}

impl From<u64> for Le64 {
    fn from(v: u64) -> (r: Le64) {
        Le64(u64::to_le(v))
    }
}

impl vstd::std_specs::convert::FromSpecImpl<u64> for Le64 {
    open spec fn obeys_from_spec() -> bool {
        true
    }

    open spec fn from_spec(v: u64) -> Le64 {
        Le64(le64(v))
    }
}

/// Conversion to and from [`Le64`] loses nothing, in either direction.
pub proof fn law_le64_round_trip(v: u64, stored: Le64)
    ensures
        Le64(le64(v)).value() == v,
        Le64(le64(stored.value())) == stored,
{
    law_swap64_involutive(v);
    law_swap64_involutive(stored.0);
}

/// On every machine, the bytes of a [`Le64`] in memory are those of its value in little endian
/// order.
pub proof fn law_le64_memory(v: u64)
    ensures
        memory64(Le64(le64(v)).0) == digits64(v),
{
    law_swap64_digits(v);
    assert(digits64(v).reverse().reverse() =~= digits64(v));
}

/// An unsigned integer type with an explicit endianness.
///
/// The field is the integer that has the bytes of the value in big endian order in memory.
#[derive(Copy, Clone, PartialEq, Eq, Structural, Debug)]
pub struct Be16(pub u16);

impl Be16 {
    /// The integer that this stands for.
    pub open spec fn value(self) -> u16 {
        be16(self.0)
    }

    /// Convert to CPU/native endianness.
    pub fn to_cpu(self) -> (v: u16)
        ensures
            v == self.value(),
    {
        u16::from_be(self.0)
    }
}

impl Default for Be16 {
    fn default() -> (v: Be16)
        ensures
            v.0 == 0,
    {
        Be16(0)
    }
}

impl PartialEq<u16> for Be16 {
    fn eq(&self, other: &u16) -> (equal: bool) {
        self.to_cpu() == *other
    }
}

impl vstd::std_specs::cmp::PartialEqSpecImpl<u16> for Be16 {
    open spec fn obeys_eq_spec() -> bool {
        true
    }

    open spec fn eq_spec(&self, other: &u16) -> bool {
        self.value() == *other
    }
}

impl PartialEq<Be16> for u16 {
    fn eq(&self, other: &Be16) -> (equal: bool) {
        *self == other.to_cpu()
    }
}

impl vstd::std_specs::cmp::PartialEqSpecImpl<Be16> for u16 {
    open spec fn obeys_eq_spec() -> bool {
        true
    }

    open spec fn eq_spec(&self, other: &Be16) -> bool {
        *self == other.value()
    }
}

impl From<Be16> for u16 {
    fn from(v: Be16) -> (r: u16) {
        v.to_cpu()
    }
}

impl vstd::std_specs::convert::FromSpecImpl<Be16> for u16 {
    open spec fn obeys_from_spec() -> bool {
        true
    }

    open spec fn from_spec(v: Be16) -> u16 {
        v.value()
    }
}

impl From<u16> for Be16 {
    fn from(v: u16) -> (r: Be16) {
        Be16(u16::to_be(v))
    }
}

impl vstd::std_specs::convert::FromSpecImpl<u16> for Be16 {
    open spec fn obeys_from_spec() -> bool {
        true
    }

    open spec fn from_spec(v: u16) -> Be16 {
        Be16(be16(v))
    }
}

/// Conversion to and from [`Be16`] loses nothing, in either direction.
pub proof fn law_be16_round_trip(v: u16, stored: Be16)
    ensures
        Be16(be16(v)).value() == v,
        Be16(be16(stored.value())) == stored,
{
    law_swap16_involutive(v);
    law_swap16_involutive(stored.0);
}

/// On every machine, the bytes of a [`Be16`] in memory are those of its value in big endian
/// order.
pub proof fn law_be16_memory(v: u16)
    ensures
        memory16(Be16(be16(v)).0) == digits16(v).reverse(),
{
    law_swap16_digits(v);
    assert(digits16(v).reverse().reverse() =~= digits16(v));
}

/// An unsigned integer type with an explicit endianness.
///
/// The field is the integer that has the bytes of the value in big endian order in memory.
#[derive(Copy, Clone, PartialEq, Eq, Structural, Debug)]
pub struct Be32(pub u32);

impl Be32 {
    /// The integer that this stands for.
    pub open spec fn value(self) -> u32 {
        be32(self.0)
    }

    /// Convert to CPU/native endianness.
    pub fn to_cpu(self) -> (v: u32)
        ensures
            v == self.value(),
    {
        u32::from_be(self.0)
    }
}

impl Default for Be32 {
    fn default() -> (v: Be32)
        ensures
            v.0 == 0,
    {
        Be32(0)
    }
}

impl PartialEq<u32> for Be32 {
    fn eq(&self, other: &u32) -> (equal: bool) {
        self.to_cpu() == *other
    }
}

impl vstd::std_specs::cmp::PartialEqSpecImpl<u32> for Be32 {
    open spec fn obeys_eq_spec() -> bool {
        true
    }

    open spec fn eq_spec(&self, other: &u32) -> bool {
        self.value() == *other
    }
}

impl PartialEq<Be32> for u32 {
    fn eq(&self, other: &Be32) -> (equal: bool) {
        *self == other.to_cpu()
    }
}

impl vstd::std_specs::cmp::PartialEqSpecImpl<Be32> for u32 {
    open spec fn obeys_eq_spec() -> bool {
        true
    }

    open spec fn eq_spec(&self, other: &Be32) -> bool {
        *self == other.value()
    }
}

impl From<Be32> for u32 {
    fn from(v: Be32) -> (r: u32) {
        v.to_cpu()
    }
}

impl vstd::std_specs::convert::FromSpecImpl<Be32> for u32 {
    open spec fn obeys_from_spec() -> bool {
        true
    }

    open spec fn from_spec(v: Be32) -> u32 {
        v.value()
    }
}

impl From<u32> for Be32 {
    fn from(v: u32) -> (r: Be32) {
        Be32(u32::to_be(v))
    }
}

impl vstd::std_specs::convert::FromSpecImpl<u32> for Be32 {
    open spec fn obeys_from_spec() -> bool {
        true
    }

    open spec fn from_spec(v: u32) -> Be32 {
        Be32(be32(v))
    }
}

/// Conversion to and from [`Be32`] loses nothing, in either direction.
pub proof fn law_be32_round_trip(v: u32, stored: Be32)
    ensures
        Be32(be32(v)).value() == v,
        Be32(be32(stored.value())) == stored,
{
    law_swap32_involutive(v);
    law_swap32_involutive(stored.0);
}

/// On every machine, the bytes of a [`Be32`] in memory are those of its value in big endian
/// order.
pub proof fn law_be32_memory(v: u32)
    ensures
        memory32(Be32(be32(v)).0) == digits32(v).reverse(),
{
    law_swap32_digits(v);
    assert(digits32(v).reverse().reverse() =~= digits32(v));
}

/// An unsigned integer type with an explicit endianness.
///
/// The field is the integer that has the bytes of the value in big endian order in memory.
#[derive(Copy, Clone, PartialEq, Eq, Structural, Debug)]
pub struct Be64(pub u64);

impl Be64 {
    /// The integer that this stands for.
    pub open spec fn value(self) -> u64 {
        be64(self.0)
    }

    /// Convert to CPU/native endianness.
    pub fn to_cpu(self) -> (v: u64)
        ensures
            v == self.value(),
    {
        u64::from_be(self.0)
    }
}

impl Default for Be64 {
    fn default() -> (v: Be64)
        ensures
            v.0 == 0,
    {
        Be64(0)
    }
}

impl PartialEq<u64> for Be64 {
    fn eq(&self, other: &u64) -> (equal: bool) {
        self.to_cpu() == *other
    }
}

impl vstd::std_specs::cmp::PartialEqSpecImpl<u64> for Be64 {
    open spec fn obeys_eq_spec() -> bool {
        true
    }

    open spec fn eq_spec(&self, other: &u64) -> bool {
        self.value() == *other
    }
}

impl PartialEq<Be64> for u64 {
    fn eq(&self, other: &Be64) -> (equal: bool) {
        *self == other.to_cpu()
    }
}

impl vstd::std_specs::cmp::PartialEqSpecImpl<Be64> for u64 {
    open spec fn obeys_eq_spec() -> bool {
        true
    }

    open spec fn eq_spec(&self, other: &Be64) -> bool {
        *self == other.value()
    }
}

impl From<Be64> for u64 {
    fn from(v: Be64) -> (r: u64) {
        v.to_cpu()
    }
}

impl vstd::std_specs::convert::FromSpecImpl<Be64> for u64 {
    open spec fn obeys_from_spec() -> bool {
        true
    }

    open spec fn from_spec(v: Be64) -> u64 {
        v.value()
    }
}

impl From<u64> for Be64 {
    fn from(v: u64) -> (r: Be64) {
        Be64(u64::to_be(v))
    }
}

impl vstd::std_specs::convert::FromSpecImpl<u64> for Be64 {
    open spec fn obeys_from_spec() -> bool {
        true
    }

    open spec fn from_spec(v: u64) -> Be64 {
        Be64(be64(v))
    }
}

/// Conversion to and from [`Be64`] loses nothing, in either direction.
pub proof fn law_be64_round_trip(v: u64, stored: Be64)
    ensures
        Be64(be64(v)).value() == v,
        Be64(be64(stored.value())) == stored,
{
    law_swap64_involutive(v);
    law_swap64_involutive(stored.0);
}

/// On every machine, the bytes of a [`Be64`] in memory are those of its value in big endian
/// order.
pub proof fn law_be64_memory(v: u64)
    ensures
        memory64(Be64(be64(v)).0) == digits64(v).reverse(),
{
    law_swap64_digits(v);
    assert(digits64(v).reverse().reverse() =~= digits64(v));
}

/// A [`Le16`] is compared by the integer that it stands for, from either side, whatever the byte
/// order of the machine; and it stands for the integer that it was made of.
pub proof fn law_le16_comparison(
    v: u16,
    w: u16,
    made: Le16,
    value: u16,
    cpu: u16,
    equal: bool,
    flipped: bool,
)
    requires
        call_ensures(<Le16 as From<u16>>::from, (v,), made),
        call_ensures(<u16 as From<Le16>>::from, (made,), value),
        call_ensures(Le16::to_cpu, (made,), cpu),
        call_ensures(<Le16 as PartialEq<u16>>::eq, (&made, &w), equal),
        call_ensures(<u16 as PartialEq<Le16>>::eq, (&w, &made), flipped),
    ensures
        value == v,
        cpu == v,
        equal <==> v == w,
        flipped <==> v == w,
        memory16(made.0) == digits16(v),
{
    law_le16_round_trip(v, made);
    law_le16_memory(v);
}

/// Whatever the field of a [`Le16`] is, comparing it with an integer, from either side, is
/// comparing what it converts to; and converting that back gives the [`Le16`].
pub proof fn law_le16_stored(
    stored: Le16,
    w: u16,
    value: u16,
    cpu: u16,
    equal: bool,
    flipped: bool,
    back: Le16,
)
    requires
        call_ensures(<u16 as From<Le16>>::from, (stored,), value),
        call_ensures(Le16::to_cpu, (stored,), cpu),
        call_ensures(<Le16 as PartialEq<u16>>::eq, (&stored, &w), equal),
        call_ensures(<u16 as PartialEq<Le16>>::eq, (&w, &stored), flipped),
        call_ensures(<Le16 as From<u16>>::from, (value,), back),
    ensures
        cpu == value,
        equal <==> value == w,
        flipped <==> value == w,
        back == stored,
        memory16(stored.0) == digits16(value),
{
    law_le16_round_trip(value, stored);
    law_le16_memory(value);
}

/// The default [`Le16`] is zero.
pub proof fn law_le16_default(made: Le16, value: u16)
    requires
        call_ensures(<Le16 as Default>::default, (), made),
        call_ensures(Le16::to_cpu, (made,), value),
    ensures
        value == 0,
{
    assert(swap16(0) == 0) by (bit_vector);
}

/// A [`Le32`] is compared by the integer that it stands for, from either side, whatever the byte
/// order of the machine; and it stands for the integer that it was made of.
pub proof fn law_le32_comparison(
    v: u32,
    w: u32,
    made: Le32,
    value: u32,
    cpu: u32,
    equal: bool,
    flipped: bool,
)
    requires
        call_ensures(<Le32 as From<u32>>::from, (v,), made),
        call_ensures(<u32 as From<Le32>>::from, (made,), value),
        call_ensures(Le32::to_cpu, (made,), cpu),
        call_ensures(<Le32 as PartialEq<u32>>::eq, (&made, &w), equal),
        call_ensures(<u32 as PartialEq<Le32>>::eq, (&w, &made), flipped),
    ensures
        value == v,
        cpu == v,
        equal <==> v == w,
        flipped <==> v == w,
        memory32(made.0) == digits32(v),
{
    law_le32_round_trip(v, made);
    law_le32_memory(v);
}

/// Whatever the field of a [`Le32`] is, comparing it with an integer, from either side, is
/// comparing what it converts to; and converting that back gives the [`Le32`].
pub proof fn law_le32_stored(
    stored: Le32,
    w: u32,
    value: u32,
    cpu: u32,
    equal: bool,
    flipped: bool,
    back: Le32,
)
    requires
        call_ensures(<u32 as From<Le32>>::from, (stored,), value),
        call_ensures(Le32::to_cpu, (stored,), cpu),
        call_ensures(<Le32 as PartialEq<u32>>::eq, (&stored, &w), equal),
        call_ensures(<u32 as PartialEq<Le32>>::eq, (&w, &stored), flipped),
        call_ensures(<Le32 as From<u32>>::from, (value,), back),
    ensures
        cpu == value,
        equal <==> value == w,
        flipped <==> value == w,
        back == stored,
        memory32(stored.0) == digits32(value),
{
    law_le32_round_trip(value, stored);
    law_le32_memory(value);
}

/// The default [`Le32`] is zero.
pub proof fn law_le32_default(made: Le32, value: u32)
    requires
        call_ensures(<Le32 as Default>::default, (), made),
        call_ensures(Le32::to_cpu, (made,), value),
    ensures
        value == 0,
{
    assert(swap32(0) == 0) by (bit_vector);
}

/// A [`Le64`] is compared by the integer that it stands for, from either side, whatever the byte
/// order of the machine; and it stands for the integer that it was made of.
pub proof fn law_le64_comparison(
    v: u64,
    w: u64,
    made: Le64,
    value: u64,
    cpu: u64,
    equal: bool,
    flipped: bool,
)
    requires
        call_ensures(<Le64 as From<u64>>::from, (v,), made),
        call_ensures(<u64 as From<Le64>>::from, (made,), value),
        call_ensures(Le64::to_cpu, (made,), cpu),
        call_ensures(<Le64 as PartialEq<u64>>::eq, (&made, &w), equal),
        call_ensures(<u64 as PartialEq<Le64>>::eq, (&w, &made), flipped),
    ensures
        value == v,
        cpu == v,
        equal <==> v == w,
        flipped <==> v == w,
        memory64(made.0) == digits64(v),
{
    law_le64_round_trip(v, made);
    law_le64_memory(v);
}

/// Whatever the field of a [`Le64`] is, comparing it with an integer, from either side, is
/// comparing what it converts to; and converting that back gives the [`Le64`].
pub proof fn law_le64_stored(
    stored: Le64,
    w: u64,
    value: u64,
    cpu: u64,
    equal: bool,
    flipped: bool,
    back: Le64,
)
    requires
        call_ensures(<u64 as From<Le64>>::from, (stored,), value),
        call_ensures(Le64::to_cpu, (stored,), cpu),
        call_ensures(<Le64 as PartialEq<u64>>::eq, (&stored, &w), equal),
        call_ensures(<u64 as PartialEq<Le64>>::eq, (&w, &stored), flipped),
        call_ensures(<Le64 as From<u64>>::from, (value,), back),
    ensures
        cpu == value,
        equal <==> value == w,
        flipped <==> value == w,
        back == stored,
        memory64(stored.0) == digits64(value),
{
    law_le64_round_trip(value, stored);
    law_le64_memory(value);
}

/// The default [`Le64`] is zero.
pub proof fn law_le64_default(made: Le64, value: u64)
    requires
        call_ensures(<Le64 as Default>::default, (), made),
        call_ensures(Le64::to_cpu, (made,), value),
    ensures
        value == 0,
{
    assert(swap64(0) == 0) by (bit_vector);
}

/// A [`Be16`] is compared by the integer that it stands for, from either side, whatever the byte
/// order of the machine; and it stands for the integer that it was made of.
pub proof fn law_be16_comparison(
    v: u16,
    w: u16,
    made: Be16,
    value: u16,
    cpu: u16,
    equal: bool,
    flipped: bool,
)
    requires
        call_ensures(<Be16 as From<u16>>::from, (v,), made),
        call_ensures(<u16 as From<Be16>>::from, (made,), value),
        call_ensures(Be16::to_cpu, (made,), cpu),
        call_ensures(<Be16 as PartialEq<u16>>::eq, (&made, &w), equal),
        call_ensures(<u16 as PartialEq<Be16>>::eq, (&w, &made), flipped),
    ensures
        value == v,
        cpu == v,
        equal <==> v == w,
        flipped <==> v == w,
        memory16(made.0) == digits16(v).reverse(),
{
    law_be16_round_trip(v, made);
    law_be16_memory(v);
}

/// Whatever the field of a [`Be16`] is, comparing it with an integer, from either side, is
/// comparing what it converts to; and converting that back gives the [`Be16`].
pub proof fn law_be16_stored(
    stored: Be16,
    w: u16,
    value: u16,
    cpu: u16,
    equal: bool,
    flipped: bool,
    back: Be16,
)
    requires
        call_ensures(<u16 as From<Be16>>::from, (stored,), value),
        call_ensures(Be16::to_cpu, (stored,), cpu),
        call_ensures(<Be16 as PartialEq<u16>>::eq, (&stored, &w), equal),
        call_ensures(<u16 as PartialEq<Be16>>::eq, (&w, &stored), flipped),
        call_ensures(<Be16 as From<u16>>::from, (value,), back),
    ensures
        cpu == value,
        equal <==> value == w,
        flipped <==> value == w,
        back == stored,
        memory16(stored.0) == digits16(value).reverse(),
{
    law_be16_round_trip(value, stored);
    law_be16_memory(value);
}

/// The default [`Be16`] is zero.
pub proof fn law_be16_default(made: Be16, value: u16)
    requires
        call_ensures(<Be16 as Default>::default, (), made),
        call_ensures(Be16::to_cpu, (made,), value),
    ensures
        value == 0,
{
    assert(swap16(0) == 0) by (bit_vector);
}

/// A [`Be32`] is compared by the integer that it stands for, from either side, whatever the byte
/// order of the machine; and it stands for the integer that it was made of.
pub proof fn law_be32_comparison(
    v: u32,
    w: u32,
    made: Be32,
    value: u32,
    cpu: u32,
    equal: bool,
    flipped: bool,
)
    requires
        call_ensures(<Be32 as From<u32>>::from, (v,), made),
        call_ensures(<u32 as From<Be32>>::from, (made,), value),
        call_ensures(Be32::to_cpu, (made,), cpu),
        call_ensures(<Be32 as PartialEq<u32>>::eq, (&made, &w), equal),
        call_ensures(<u32 as PartialEq<Be32>>::eq, (&w, &made), flipped),
    ensures
        value == v,
        cpu == v,
        equal <==> v == w,
        flipped <==> v == w,
        memory32(made.0) == digits32(v).reverse(),
{
    law_be32_round_trip(v, made);
    law_be32_memory(v);
}

/// Whatever the field of a [`Be32`] is, comparing it with an integer, from either side, is
/// comparing what it converts to; and converting that back gives the [`Be32`].
pub proof fn law_be32_stored(
    stored: Be32,
    w: u32,
    value: u32,
    cpu: u32,
    equal: bool,
    flipped: bool,
    back: Be32,
)
    requires
        call_ensures(<u32 as From<Be32>>::from, (stored,), value),
        call_ensures(Be32::to_cpu, (stored,), cpu),
        call_ensures(<Be32 as PartialEq<u32>>::eq, (&stored, &w), equal),
        call_ensures(<u32 as PartialEq<Be32>>::eq, (&w, &stored), flipped),
        call_ensures(<Be32 as From<u32>>::from, (value,), back),
    ensures
        cpu == value,
        equal <==> value == w,
        flipped <==> value == w,
        back == stored,
        memory32(stored.0) == digits32(value).reverse(),
{
    law_be32_round_trip(value, stored);
    law_be32_memory(value);
}

/// The default [`Be32`] is zero.
pub proof fn law_be32_default(made: Be32, value: u32)
    requires
        call_ensures(<Be32 as Default>::default, (), made),
        call_ensures(Be32::to_cpu, (made,), value),
    ensures
        value == 0,
{
    assert(swap32(0) == 0) by (bit_vector);
}

/// A [`Be64`] is compared by the integer that it stands for, from either side, whatever the byte
/// order of the machine; and it stands for the integer that it was made of.
pub proof fn law_be64_comparison(
    v: u64,
    w: u64,
    made: Be64,
    value: u64,
    cpu: u64,
    equal: bool,
    flipped: bool,
)
    requires
        call_ensures(<Be64 as From<u64>>::from, (v,), made),
        call_ensures(<u64 as From<Be64>>::from, (made,), value),
        call_ensures(Be64::to_cpu, (made,), cpu),
        call_ensures(<Be64 as PartialEq<u64>>::eq, (&made, &w), equal),
        call_ensures(<u64 as PartialEq<Be64>>::eq, (&w, &made), flipped),
    ensures
        value == v,
        cpu == v,
        equal <==> v == w,
        flipped <==> v == w,
        memory64(made.0) == digits64(v).reverse(),
{
    law_be64_round_trip(v, made);
    law_be64_memory(v);
}

/// Whatever the field of a [`Be64`] is, comparing it with an integer, from either side, is
/// comparing what it converts to; and converting that back gives the [`Be64`].
pub proof fn law_be64_stored(
    stored: Be64,
    w: u64,
    value: u64,
    cpu: u64,
    equal: bool,
    flipped: bool,
    back: Be64,
)
    requires
        call_ensures(<u64 as From<Be64>>::from, (stored,), value),
        call_ensures(Be64::to_cpu, (stored,), cpu),
        call_ensures(<Be64 as PartialEq<u64>>::eq, (&stored, &w), equal),
        call_ensures(<u64 as PartialEq<Be64>>::eq, (&w, &stored), flipped),
        call_ensures(<Be64 as From<u64>>::from, (value,), back),
    ensures
        cpu == value,
        equal <==> value == w,
        flipped <==> value == w,
        back == stored,
        memory64(stored.0) == digits64(value).reverse(),
{
    law_be64_round_trip(value, stored);
    law_be64_memory(value);
}

/// The default [`Be64`] is zero.
pub proof fn law_be64_default(made: Be64, value: u64)
    requires
        call_ensures(<Be64 as Default>::default, (), made),
        call_ensures(Be64::to_cpu, (made,), value),
    ensures
        value == 0,
{
    assert(swap64(0) == 0) by (bit_vector);
}

} // verus!
