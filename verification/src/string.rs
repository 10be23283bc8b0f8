//! UTF-16 string marshalling.
//!
//! The foreign library exchanges text as length-counted UTF-16 buffers that
//! must not contain an interior NUL unit.  [`CefString`] is the owned form of
//! such a buffer, and this module proves the two conversions against a
//! mathematical model of UTF-16: [`encode_utf16`] turns a character sequence
//! into code units, [`decode_utf16`] turns code units back into characters
//! (failing exactly on unpaired surrogates), and [`lemma_utf16_round_trip`]
//! shows that decoding an encoding always gives the original characters
//! back.
//!
//! A buffer received from the foreign side may be arbitrary code units, so
//! decoding is fallible; a buffer built from native text is always valid by
//! construction.

use vstd::prelude::*;

verus! {

use vstd::utf8::char_is_scalar;
use vstd::utf8::char_u32_cast;
use vstd::utf8::is_scalar;

/// Why a conversion between native text and a foreign buffer failed.
#[derive(Clone, Copy, Debug, PartialEq, Eq, Structural)]
pub enum CefStringError {
    /// The foreign side handed over no buffer at all.
    NullPointer,
    /// The data cannot be represented on the other side: an interior NUL
    /// unit going out, or an unpaired surrogate coming in.
    Conversion,
}

/// Relies on `char::from_u32` of the standard library: it returns the
/// character with the given scalar value, and `None` exactly when the value
/// is a surrogate or above the Unicode range.
pub assume_specification[ char::from_u32 ](v: u32) -> (r: Option<char>)
    ensures
        r == if is_scalar(v) {
            Some(v as char)
        } else {
            None::<char>
        },
;

/// True for a code unit in the high (leading) surrogate range.
pub open spec fn is_high_surrogate(u: u16) -> bool {
    0xD800 <= u <= 0xDBFF
}

/// True for a code unit in the low (trailing) surrogate range.
pub open spec fn is_low_surrogate(u: u16) -> bool {
    0xDC00 <= u <= 0xDFFF
}

/// True for any surrogate code unit; such a unit never stands alone in
/// well-formed UTF-16.
pub open spec fn is_surrogate(u: u16) -> bool {
    is_high_surrogate(u) || is_low_surrogate(u)
}

/// The UTF-16 code units of a single Unicode scalar: the value itself if it
/// fits in one unit, otherwise a high/low surrogate pair carrying the value
/// reduced by 0x10000 in two 10-bit halves.
pub open spec fn encode_scalar_utf16(v: u32) -> Seq<u16>
    recommends
        is_scalar(v),
{
    if v < 0x10000 {
        seq![v as u16]
    } else {
        seq![
            (0xD800 + (v - 0x10000) / 0x400) as u16,
            (0xDC00 + (v - 0x10000) % 0x400) as u16,
        ]
    }
}

/// The scalar value carried by a surrogate pair.
pub open spec fn combine_surrogates(hi: u16, lo: u16) -> u32
    recommends
        is_high_surrogate(hi),
        is_low_surrogate(lo),
{
    (0x10000 + (hi - 0xD800) * 0x400 + (lo - 0xDC00)) as u32
}

/// The UTF-16 encoding of a character sequence.
pub open spec fn encode_utf16(chars: Seq<char>) -> Seq<u16>
    decreases chars.len(),
{
    if chars.len() == 0 {
        Seq::empty()
    } else {
        encode_scalar_utf16(chars.first() as u32) + encode_utf16(chars.drop_first())
    }
}

/// The characters encoded by a UTF-16 code unit sequence, or `None` if the
/// sequence has a surrogate that is not part of a high/low pair.
pub open spec fn decode_utf16(units: Seq<u16>) -> Option<Seq<char>>
    decreases units.len(),
{
    if units.len() == 0 {
        Some(Seq::empty())
    } else if !is_surrogate(units.first()) {
        match decode_utf16(units.drop_first()) {
            Some(rest) => Some(seq![(units.first() as u32) as char] + rest),
            None => None,
        }
    } else if is_high_surrogate(units.first()) && units.len() >= 2 && is_low_surrogate(
        units[1],
    ) {
        match decode_utf16(units.skip(2)) {
            Some(rest) => Some(seq![combine_surrogates(units.first(), units[1]) as char] + rest),
            None => None,
        }
    } else {
        None
    }
}

/// The units encoding one scalar decode back to that scalar: a scalar below
/// 0x10000 becomes a single non-surrogate unit, and a larger one becomes a
/// well-formed surrogate pair that combines back to the original value.
proof fn lemma_encode_scalar_utf16_shape(v: u32)
    requires
        is_scalar(v),
    ensures
        v < 0x10000 ==> {
            &&& encode_scalar_utf16(v) == seq![v as u16]
            &&& !is_surrogate(v as u16)
            &&& (v as u16) as u32 == v
        },
        v >= 0x10000 ==> {
            let units = encode_scalar_utf16(v);
            &&& units.len() == 2
            &&& is_high_surrogate(units[0])
            &&& is_low_surrogate(units[1])
            &&& combine_surrogates(units[0], units[1]) == v
        },
{
    if v < 0x10000 {
        assert(!(0xD800 <= v <= 0xDFFF));
    } else {
        let w = (v - 0x10000) as u32;
        assert(w <= 0xFFFFF);
        assert(w / 0x400 <= 0x3FF) by (nonlinear_arith)
            requires
                w <= 0xFFFFF,
        ;
        assert(w % 0x400 <= 0x3FF);
        vstd::arithmetic::div_mod::lemma_fundamental_div_mod(w as int, 0x400);
        assert(0x400 * (w / 0x400) + w % 0x400 == w);
    }
}

/// Round trip of the codec (proved for every character sequence): decoding
/// the UTF-16 encoding of any characters yields exactly those characters.
pub proof fn lemma_utf16_round_trip(chars: Seq<char>)
    ensures
        decode_utf16(encode_utf16(chars)) == Some(chars),
    decreases chars.len(),
{
    if chars.len() == 0 {
        assert(encode_utf16(chars).len() == 0);
        assert(Seq::<char>::empty() =~= chars);
    } else {
        let c = chars.first();
        let v = c as u32;
        char_is_scalar(c);
        char_u32_cast(c, v);
        let head = encode_scalar_utf16(v);
        let tail = encode_utf16(chars.drop_first());
        let units = encode_utf16(chars);
        assert(units == head + tail);
        lemma_encode_scalar_utf16_shape(v);
        lemma_utf16_round_trip(chars.drop_first());
        if v < 0x10000 {
            assert(units.first() == v as u16);
            assert(units.drop_first() =~= tail);
            assert((units.first() as u32) as char == c);
            assert(seq![c] + chars.drop_first() =~= chars);
        } else {
            assert(units.len() >= 2);
            assert(units.first() == head[0] && units[1] == head[1]);
            assert(units.skip(2) =~= tail);
            assert(combine_surrogates(units.first(), units[1]) == v);
            assert(v as char == c);
            assert(seq![c] + chars.drop_first() =~= chars);
        }
    }
}

/// The complementary round trip: re-encoding the characters decoded from a
/// well-formed unit sequence gives back exactly those units, so the two
/// conversions are mutually inverse wherever decoding succeeds.
pub proof fn lemma_utf16_decode_encode(units: Seq<u16>)
    requires
        decode_utf16(units) is Some,
    ensures
        encode_utf16(decode_utf16(units)->0) == units,
    decreases units.len(),
{
    if units.len() == 0 {
        assert(encode_utf16(decode_utf16(units)->0) =~= units);
    } else if !is_surrogate(units.first()) {
        let u = units.first();
        let rest = units.drop_first();
        let c = (u as u32) as char;
        assert(is_scalar(u as u32));
        lemma_utf16_decode_encode(rest);
        let chars = decode_utf16(units)->0;
        assert(chars == seq![c] + decode_utf16(rest)->0);
        assert(chars.first() == c);
        assert(chars.drop_first() =~= decode_utf16(rest)->0);
        assert(encode_scalar_utf16(c as u32) == seq![u]);
        assert(encode_utf16(chars) =~= units);
    } else {
        let hi = units.first();
        let lo = units[1];
        let rest = units.skip(2);
        let v = combine_surrogates(hi, lo);
        assert(0x10000 <= v <= 0x10FFFF);
        assert(is_scalar(v));
        let c = v as char;
        lemma_utf16_decode_encode(rest);
        let chars = decode_utf16(units)->0;
        assert(chars == seq![c] + decode_utf16(rest)->0);
        assert(chars.first() == c);
        assert(chars.drop_first() =~= decode_utf16(rest)->0);
        assert(encode_scalar_utf16(c as u32) == seq![hi, lo]) by {
            assert(c as u32 == v);
            vstd::arithmetic::div_mod::lemma_fundamental_div_mod_converse(
                v - 0x10000,
                0x400,
                hi - 0xD800,
                lo - 0xDC00,
            );
            assert((v - 0x10000) / 0x400 == hi - 0xD800);
            assert((v - 0x10000) % 0x400 == lo - 0xDC00);
        }
        assert(encode_utf16(chars) =~= units);
    }
}

/// Encoding a sequence extended by one character appends that character's
/// units to the encoding of the prefix.
proof fn lemma_encode_utf16_push(chars: Seq<char>, c: char)
    ensures
        encode_utf16(chars.push(c)) == encode_utf16(chars) + encode_scalar_utf16(c as u32),
    decreases chars.len(),
{
    if chars.len() == 0 {
        assert(chars.push(c).first() == c);
        assert(chars.push(c).drop_first() =~= Seq::<char>::empty());
        assert(encode_utf16(Seq::<char>::empty()) == Seq::<u16>::empty());
        assert(encode_utf16(chars.push(c)) == encode_scalar_utf16(c as u32) + Seq::<u16>::empty());
        assert(encode_utf16(chars.push(c)) =~= encode_utf16(chars) + encode_scalar_utf16(
            c as u32,
        ));
    } else {
        assert(chars.push(c).first() == chars.first());
        assert(chars.push(c).drop_first() =~= chars.drop_first().push(c));
        lemma_encode_utf16_push(chars.drop_first(), c);
        assert(encode_utf16(chars.push(c)) =~= encode_utf16(chars) + encode_scalar_utf16(
            c as u32,
        ));
    }
}

/// Append the UTF-16 units of one character to a buffer.
fn push_char_units(units: &mut Vec<u16>, c: char)
    ensures
        final(units)@ == old(units)@ + encode_scalar_utf16(c as u32),
{
    let v = c as u32;
    proof {
        char_is_scalar(c);
    }
    if v < 0x10000 {
        units.push(v as u16);
        assert(units@ =~= old(units)@ + encode_scalar_utf16(c as u32));
    } else {
        let w = v - 0x10000;
        assert(w / 0x400 <= 0x3FF) by (nonlinear_arith)
            requires
                w <= 0xFFFFF,
        ;
        let hi = 0xD800 + w / 0x400;
        let lo = 0xDC00 + w % 0x400;
        units.push(hi as u16);
        units.push(lo as u16);
        assert(units@ =~= old(units)@ + encode_scalar_utf16(c as u32));
    }
}

/// An owned foreign-format string: a length-counted UTF-16 buffer with no
/// interior NUL unit.
#[derive(Debug)]
pub struct CefString {
    units: Vec<u16>,
}

impl Clone for CefString {
    /// Cloning copies the buffer exactly.
    fn clone(&self) -> (r: Self)
        ensures
            r.units() == self.units(),
    {
        let units = self.units.clone();
        assert(units@ =~= self.units@);
        CefString { units }
    }
}

impl Default for CefString {
    fn default() -> (r: Self)
        ensures
            r.units() == Seq::<u16>::empty(),
            r.wf(),
    {
        CefString { units: Vec::new() }
    }
}

impl CefString {
    /// The code units of the buffer.
    pub closed spec fn units(&self) -> Seq<u16> {
        self.units@
    }

    /// No interior NUL: every constructor establishes this, as the foreign
    /// side terminates buffers with a NUL it appends itself.
    pub open spec fn wf(&self) -> bool {
        forall|i: int| 0 <= i < self.units().len() ==> self.units()[i] != 0
    }

    /// Encode native text, rejecting text with an interior NUL character.
    pub fn from_str(s: &str) -> (r: Result<CefString, CefStringError>)
        ensures
            r is Ok <==> !s@.contains('\0'),
            match r {
                Ok(c) => c.units() == encode_utf16(s@) && c.wf(),
                Err(e) => e == CefStringError::Conversion,
            },
    {
        let n = s.unicode_len();
        let mut units: Vec<u16> = Vec::new();
        let mut i: usize = 0;
        while i < n
            invariant
                n == s@.len(),
                i <= n,
                units@ == encode_utf16(s@.take(i as int)),
                forall|j: int| 0 <= j < i ==> s@[j] != '\0',
            decreases n - i,
        {
            let c = s.get_char(i);
            if c == '\0' {
                assert(s@.contains('\0')) by {
                    assert(s@[i as int] == '\0');
                }
                return Err(CefStringError::Conversion);
            }
            push_char_units(&mut units, c);
            proof {
                lemma_encode_utf16_push(s@.take(i as int), c);
                assert(s@.take(i as int).push(c) =~= s@.take(i + 1));
            }
            i = i + 1;
        }
        assert(s@.take(n as int) =~= s@);
        assert(!s@.contains('\0'));
        proof {
            lemma_encode_no_nul(s@);
        }
        Ok(CefString { units })
    }

    /// Encode native text that is known to be free of interior NUL
    /// characters, such as a compiled-in literal.
    pub fn new(s: &str) -> (r: CefString)
        requires
            !s@.contains('\0'),
        ensures
            r.units() == encode_utf16(s@),
            r.wf(),
    {
        match Self::from_str(s) {
            Ok(c) => c,
            Err(_) => {
                proof {
                    assert(false);
                }
                CefString { units: Vec::new() }
            },
        }
    }

    /// Take over a buffer of raw code units copied out of a foreign string,
    /// rejecting a buffer with an interior NUL unit.
    pub fn from_units(units: Vec<u16>) -> (r: Result<CefString, CefStringError>)
        ensures
            r is Ok <==> !units@.contains(0u16),
            match r {
                Ok(c) => c.units() == units@ && c.wf(),
                Err(e) => e == CefStringError::Conversion,
            },
    {
        let mut i: usize = 0;
        let n = units.len();
        while i < n
            invariant
                n == units@.len(),
                i <= n,
                forall|j: int| 0 <= j < i ==> units@[j] != 0,
            decreases n - i,
        {
            if units[i] == 0 {
                assert(units@.contains(0u16)) by {
                    assert(units@[i as int] == 0);
                }
                return Err(CefStringError::Conversion);
            }
            i = i + 1;
        }
        Ok(CefString { units })
    }

    /// Number of UTF-16 code units (not characters) in the buffer.
    pub fn len(&self) -> (n: usize)
        ensures
            n == self.units().len(),
    {
        self.units.len()
    }

    /// The raw code units, as the foreign side would see them.
    pub fn as_units(&self) -> (r: &Vec<u16>)
        ensures
            r@ == self.units(),
    {
        &self.units
    }

    /// Decode the buffer back into characters; fails exactly when the buffer
    /// holds an unpaired surrogate.
    pub fn to_chars(&self) -> (r: Result<Vec<char>, CefStringError>)
        ensures
            match r {
                Ok(cs) => decode_utf16(self.units()) == Some(cs@),
                Err(e) => decode_utf16(self.units()) is None && e == CefStringError::Conversion,
            },
    {
        let n = self.units.len();
        let mut chars: Vec<char> = Vec::new();
        let mut i: usize = 0;
        proof {
            assert(self.units().skip(0) =~= self.units());
            match decode_utf16(self.units()) {
                Some(rest) => {
                    assert(Seq::<char>::empty() + rest =~= rest);
                },
                None => {},
            }
        }
        while i < n
            invariant
                n == self.units().len(),
                i <= n,
                decode_utf16(self.units()) == (match decode_utf16(self.units().skip(i as int)) {
                    Some(rest) => Some(chars@ + rest),
                    None => None::<Seq<char>>,
                }),
            decreases n - i,
        {
            let ghost whole = self.units();
            let ghost rest_units = self.units().skip(i as int);
            let ghost chars0 = chars@;
            let u = self.units[i];
            assert(rest_units.first() == u);
            if u < 0xD800 || u > 0xDFFF {
                assert(is_scalar(u as u32));
                let c = char::from_u32(u as u32).unwrap();
                chars.push(c);
                proof {
                    assert(rest_units.drop_first() =~= whole.skip(i + 1));
                    match decode_utf16(whole.skip(i + 1)) {
                        Some(r2) => {
                            assert(decode_utf16(rest_units) == Some(seq![c] + r2));
                            assert(chars0 + (seq![c] + r2) =~= chars0.push(c) + r2);
                        },
                        None => {
                            assert(decode_utf16(rest_units) is None);
                        },
                    }
                }
                i = i + 1;
            } else if u <= 0xDBFF && i + 1 < n && 0xDC00 <= self.units[i + 1]
                && self.units[i + 1] <= 0xDFFF {
                let lo = self.units[i + 1];
                let v = 0x10000 + (u as u32 - 0xD800) * 0x400 + (lo as u32 - 0xDC00);
                assert(v == combine_surrogates(u, lo));
                assert(is_scalar(v));
                let c = char::from_u32(v).unwrap();
                chars.push(c);
                proof {
                    assert(rest_units[1] == whole[i + 1]);
                    assert(rest_units.len() >= 2);
                    assert(rest_units.skip(2) =~= whole.skip(i + 2));
                    match decode_utf16(whole.skip(i + 2)) {
                        Some(r2) => {
                            assert(decode_utf16(rest_units) == Some(seq![c] + r2));
                            assert(chars0 + (seq![c] + r2) =~= chars0.push(c) + r2);
                        },
                        None => {
                            assert(decode_utf16(rest_units) is None);
                        },
                    }
                }
                i = i + 2;
            } else {
                proof {
                    assert(rest_units.len() >= 2 ==> rest_units[1] == whole[i + 1]);
                    assert(decode_utf16(rest_units) is None);
                }
                return Err(CefStringError::Conversion);
            }
        }
        assert(self.units().skip(n as int) =~= Seq::<u16>::empty());
        assert(chars@ + Seq::<char>::empty() =~= chars@);
        Ok(chars)
    }
}

/// Text without an interior NUL character encodes to units without an
/// interior NUL unit: only the NUL character produces a zero unit.
pub proof fn lemma_encode_no_nul(chars: Seq<char>)
    requires
        !chars.contains('\0'),
    ensures
        forall|i: int| 0 <= i < encode_utf16(chars).len() ==> encode_utf16(chars)[i] != 0,
    decreases chars.len(),
{
    if chars.len() > 0 {
        let c = chars.first();
        let v = c as u32;
        char_is_scalar(c);
        char_u32_cast(c, v);
        assert(c != '\0');
        assert(v != 0) by {
            if v == 0 {
                assert((0u32 as char) == c);
                assert('\0' as u32 == 0);
                char_u32_cast('\0', 0);
            }
        }
        lemma_encode_scalar_utf16_shape(v);
        assert(!chars.drop_first().contains('\0')) by {
            if chars.drop_first().contains('\0') {
                let j = choose|j: int|
                    0 <= j < chars.drop_first().len() && chars.drop_first()[j] == '\0';
                assert(chars[j + 1] == '\0');
            }
        }
        lemma_encode_no_nul(chars.drop_first());
        assert(forall|i: int|
            0 <= i < encode_utf16(chars).len() ==> encode_utf16(chars)[i] != 0) by {
            let head = encode_scalar_utf16(v);
            let tail = encode_utf16(chars.drop_first());
            assert(encode_utf16(chars) == head + tail);
            if v < 0x10000 {
                assert(head[0] == v as u16);
                assert(head[0] != 0);
            } else {
                assert(head[0] >= 0xD800 && head[1] >= 0xDC00);
            }
        }
    }
}

/// Compare two unit buffers for exact equality.
fn units_eq(a: &Vec<u16>, b: &Vec<u16>) -> (r: bool)
    ensures
        r == (a@ == b@),
{
    if a.len() != b.len() {
        return false;
    }
    let n = a.len();
    let mut i: usize = 0;
    while i < n
        invariant
            n == a@.len(),
            a@.len() == b@.len(),
            i <= n,
            forall|j: int| 0 <= j < i ==> a@[j] == b@[j],
        decreases n - i,
    {
        if a[i] != b[i] {
            return false;
        }
        i = i + 1;
    }
    assert(a@ =~= b@);
    true
}

/// Owned model of the foreign ordered string list: strings in insertion
/// order.
#[derive(Debug)]
pub struct CefStringList {
    items: Vec<CefString>,
}

impl Default for CefStringList {
    fn default() -> (r: Self)
        ensures
            r.items() == Seq::<Seq<u16>>::empty(),
    {
        CefStringList { items: Vec::new() }
    }
}

impl CefStringList {
    /// The stored strings, each as its code units, in order.
    pub closed spec fn items(&self) -> Seq<Seq<u16>> {
        self.items@.map_values(|c: CefString| c.units())
    }

    /// Number of elements in the list.
    pub fn size(&self) -> (n: usize)
        ensures
            n == self.items().len(),
    {
        self.items.len()
    }

    /// The value at the supplied index, if the index is in range.
    pub fn get(&self, index: usize) -> (r: Option<CefString>)
        ensures
            r is Some <==> index < self.items().len(),
            match r {
                Some(c) => c.units() == self.items()[index as int],
                None => true,
            },
    {
        if index < self.items.len() {
            Some(self.items[index].clone())
        } else {
            None
        }
    }

    /// Append a value at the end of the list.
    pub fn append(&mut self, value: CefString)
        ensures
            final(self).items() == old(self).items().push(value.units()),
    {
        let ghost before = self.items@;
        let ghost v = value.units();
        self.items.push(value);
        assert(self.items() =~= before.map_values(|c: CefString| c.units()).push(v));
    }

    /// Remove every element.
    pub fn clear(&mut self)
        ensures
            final(self).items() == Seq::<Seq<u16>>::empty(),
    {
        self.items.clear();
        assert(self.items() =~= Seq::<Seq<u16>>::empty());
    }
}

/// Owned model of the foreign ordered string map: key/value pairs in
/// insertion order, with each key held at most once.
#[derive(Debug)]
pub struct CefStringMap {
    entries: Vec<(CefString, CefString)>,
}

impl Default for CefStringMap {
    fn default() -> (r: Self)
        ensures
            r.entries() == Seq::<(Seq<u16>, Seq<u16>)>::empty(),
            r.wf(),
    {
        CefStringMap { entries: Vec::new() }
    }
}

impl CefStringMap {
    /// The stored pairs, each as its code units, in order.
    pub closed spec fn entries(&self) -> Seq<(Seq<u16>, Seq<u16>)> {
        self.entries@.map_values(|p: (CefString, CefString)| (p.0.units(), p.1.units()))
    }

    /// Whether some pair holds this key.
    pub open spec fn has_key(&self, key: Seq<u16>) -> bool {
        exists|i: int| 0 <= i < self.entries().len() && self.entries()[i].0 == key
    }

    /// Each key appears at most once; every constructor establishes this
    /// and [`CefStringMap::append`] preserves it by overwriting in place.
    pub open spec fn wf(&self) -> bool {
        forall|i: int, j: int|
            0 <= i < j < self.entries().len() ==> self.entries()[i].0 != self.entries()[j].0
    }

    /// Number of pairs in the map.
    pub fn size(&self) -> (n: usize)
        ensures
            n == self.entries().len(),
    {
        self.entries.len()
    }

    /// Position of the pair holding this key, scanning from the front.
    fn find(&self, key: &CefString) -> (r: Option<usize>)
        ensures
            r is Some <==> self.has_key(key.units()),
            match r {
                Some(i) => i < self.entries().len() && self.entries()[i as int].0 == key.units(),
                None => true,
            },
    {
        let n = self.entries.len();
        let mut i: usize = 0;
        while i < n
            invariant
                n == self.entries().len(),
                n == self.entries@.len(),
                i <= n,
                forall|j: int| 0 <= j < i ==> self.entries()[j].0 != key.units(),
            decreases n - i,
        {
            assert(self.entries()[i as int].0 == self.entries@[i as int].0.units());
            if units_eq(self.entries[i].0.as_units(), key.as_units()) {
                return Some(i);
            }
            i = i + 1;
        }
        None
    }

    /// The value assigned to the supplied key, if any pair holds it.
    pub fn get(&self, key: &CefString) -> (r: Option<CefString>)
        ensures
            r is Some <==> self.has_key(key.units()),
            match r {
                Some(v) => exists|i: int|
                    0 <= i < self.entries().len() && self.entries()[i] == (
                        key.units(),
                        v.units(),
                    ),
                None => true,
            },
    {
        match self.find(key) {
            Some(i) => {
                let v = self.entries[i].1.clone();
                assert(self.entries()[i as int] == (key.units(), v.units()));
                Some(v)
            },
            None => None,
        }
    }

    /// The value at the supplied index, if the index is in range.
    pub fn get_index(&self, index: usize) -> (r: Option<CefString>)
        ensures
            r is Some <==> index < self.entries().len(),
            match r {
                Some(v) => v.units() == self.entries()[index as int].1,
                None => true,
            },
    {
        if index < self.entries.len() {
            Some(self.entries[index].1.clone())
        } else {
            None
        }
    }

    /// The key at the supplied index, if the index is in range.
    pub fn get_key_at_index(&self, index: usize) -> (r: Option<CefString>)
        ensures
            r is Some <==> index < self.entries().len(),
            match r {
                Some(k) => k.units() == self.entries()[index as int].0,
                None => true,
            },
    {
        if index < self.entries.len() {
            Some(self.entries[index].0.clone())
        } else {
            None
        }
    }

    /// Insert a pair.  A new key goes to the end of the map; an existing
    /// key keeps its position, its value is overwritten in place, and the
    /// old value comes back.
    pub fn append(&mut self, key: CefString, value: CefString) -> (r: Option<CefString>)
        requires
            old(self).wf(),
        ensures
            final(self).wf(),
            r is Some <==> old(self).has_key(key.units()),
            old(self).has_key(key.units()) ==> exists|i: int|
                {
                    &&& 0 <= i < old(self).entries().len()
                    &&& old(self).entries()[i].0 == key.units()
                    &&& final(self).entries() == old(self).entries().update(
                        i,
                        (key.units(), value.units()),
                    )
                    &&& (match r {
                        Some(v) => v.units() == old(self).entries()[i].1,
                        None => false,
                    })
                },
            !old(self).has_key(key.units()) ==> final(self).entries() == old(
                self,
            ).entries().push((key.units(), value.units())),
    {
        let ghost before = self.entries();
        match self.find(&key) {
            Some(i) => {
                let old_value = self.entries[i].1.clone();
                let ghost k = key.units();
                let ghost v = value.units();
                self.entries[i] = (key, value);
                proof {
                    assert(self.entries() =~= before.update(i as int, (k, v)));
                    assert(self.wf()) by {
                        assert(forall|a: int|
                            0 <= a < before.len() ==> self.entries()[a].0 == before[a].0);
                    }
                }
                Some(old_value)
            },
            None => {
                let ghost k = key.units();
                let ghost v = value.units();
                self.entries.push((key, value));
                proof {
                    assert(self.entries() =~= before.push((k, v)));
                    assert(self.wf()) by {
                        assert(forall|a: int|
                            0 <= a < before.len() ==> self.entries()[a] == before[a]);
                        assert(self.entries()[before.len() as int].0 == k);
                    }
                }
                None
            },
        }
    }

    /// Remove every pair.
    pub fn clear(&mut self)
        ensures
            final(self).entries() == Seq::<(Seq<u16>, Seq<u16>)>::empty(),
            final(self).wf(),
    {
        self.entries.clear();
        assert(self.entries() =~= Seq::<(Seq<u16>, Seq<u16>)>::empty());
    }
}

/// The buffer to hand a handler when a foreign string did not convert: the
/// converted string if there is one, else the fallback text (or the empty
/// buffer in the degenerate case of a fallback that itself cannot be
/// encoded).  A conversion failure thus becomes a sentinel value, never an
/// error out of a callback.
pub fn string_or_fallback(opt: Option<CefString>, fallback: &str) -> (r: CefString)
    ensures
        match opt {
            Some(c) => r == c,
            None => r.units() == (if !fallback@.contains('\0') {
                encode_utf16(fallback@)
            } else {
                Seq::<u16>::empty()
            }),
        },
{
    match opt {
        Some(c) => c,
        None => match CefString::from_str(fallback) {
            Ok(c) => c,
            Err(_) => CefString::default(),
        },
    }
}

/// Executable witness of the round trip: encoding native text into the
/// foreign representation and decoding it back yields the original
/// characters.
pub fn round_trip_chars(s: &str) -> (r: Vec<char>)
    requires
        !s@.contains('\0'),
    ensures
        r@ == s@,
{
    let cs = CefString::new(s);
    proof {
        lemma_utf16_round_trip(s@);
    }
    let chars = cs.to_chars();
    match chars {
        Ok(v) => v,
        Err(_) => {
            proof {
                assert(false);
            }
            Vec::new()
        },
    }
}

} // verus!
