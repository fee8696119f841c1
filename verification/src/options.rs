//! The settings that a compile request carries.

use vstd::prelude::*;
use vstd::utf8::{
    encode_scalar, encode_utf8, has_width_1_encoding, has_width_2_encoding, has_width_3_encoding,
    has_width_4_encoding, is_scalar,
};

verus! {

/// Whether `name` can be handed over as text that a zero byte ends: it holds
/// no NUL character of its own.
pub open spec fn nul_free(name: Seq<char>) -> bool {
    forall|i: int| 0 <= i < name.len() ==> name[i] != '\0'
}

/// Whether no byte of `bytes` is zero.
pub open spec fn no_zero_byte(bytes: Seq<u8>) -> bool {
    forall|i: int| 0 <= i < bytes.len() ==> bytes[i] != 0
}

/// Whether every name of `names` is free of NUL.
pub open spec fn all_nul_free(names: Seq<String>) -> bool {
    forall|i: int| 0 <= i < names.len() ==> nul_free(#[trigger] names[i]@)
}

/// The UTF-8 encoding of one scalar holds a zero byte only for the scalar zero.
proof fn lemma_scalar_zero_byte(scalar: u32)
    requires
        is_scalar(scalar),
    ensures
        no_zero_byte(encode_scalar(scalar)) <==> scalar != 0,
{
    let bytes = encode_scalar(scalar);
    if has_width_1_encoding(scalar) {
        assert(((scalar & 0x7F) as u8 == 0) <==> scalar == 0) by (bit_vector)
            requires
                scalar <= 0x7F,
        ;
        assert(bytes[0] == (scalar & 0x7F) as u8);
    } else if has_width_2_encoding(scalar) {
        assert(0xC0 | ((scalar >> 6) & 0x1F) as u8 != 0) by (bit_vector);
        assert(0x80 | (scalar & 0x3F) as u8 != 0) by (bit_vector);
    } else if has_width_3_encoding(scalar) {
        assert(0xE0 | ((scalar >> 12) & 0x0F) as u8 != 0) by (bit_vector);
        assert(0x80 | ((scalar >> 6) & 0x3F) as u8 != 0) by (bit_vector);
        assert(0x80 | (scalar & 0x3F) as u8 != 0) by (bit_vector);
    } else {
        assert(has_width_4_encoding(scalar));
        assert(0xF0 | ((scalar >> 18) & 0x7) as u8 != 0) by (bit_vector);
        assert(0x80 | ((scalar >> 12) & 0x3F) as u8 != 0) by (bit_vector);
        assert(0x80 | ((scalar >> 6) & 0x3F) as u8 != 0) by (bit_vector);
        assert(0x80 | (scalar & 0x3F) as u8 != 0) by (bit_vector);
    }
}

/// A text holds a NUL character exactly when its UTF-8 encoding holds a
/// zero byte.
pub proof fn lemma_nul_free_bytes(name: Seq<char>)
    ensures
        nul_free(name) <==> no_zero_byte(encode_utf8(name)),
    decreases name.len(),
{
    if name.len() > 0 {
        vstd::utf8::char_is_scalar(name[0]);
        vstd::utf8::char_u32_cast(name[0], name[0] as u32);
        vstd::utf8::char_u32_cast('\0', 0u32);
        let head = encode_scalar(name[0] as u32);
        let rest = name.drop_first();
        let tail = encode_utf8(rest);
        lemma_scalar_zero_byte(name[0] as u32);
        lemma_nul_free_bytes(rest);
        assert(encode_utf8(name) == head + tail);
        if nul_free(name) {
            assert(name[0] != '\0');
            assert(name[0] as u32 != 0);
            assert(no_zero_byte(head));
            assert forall|i: int| 0 <= i < rest.len() implies rest[i] != '\0' by {
                assert(rest[i] == name[i + 1]);
            }
            assert(nul_free(rest));
            assert(no_zero_byte(tail));
            assert forall|j: int| 0 <= j < (head + tail).len() implies (head + tail)[j] != 0 by {
                if j < head.len() {
                    assert((head + tail)[j] == head[j]);
                } else {
                    assert((head + tail)[j] == tail[j - head.len()]);
                }
            }
        }
        if no_zero_byte(encode_utf8(name)) {
            assert forall|j: int| 0 <= j < head.len() implies head[j] != 0 by {
                assert((head + tail)[j] == head[j]);
            }
            assert forall|j: int| 0 <= j < tail.len() implies tail[j] != 0 by {
                assert((head + tail)[j + head.len()] == tail[j]);
            }
            assert(name[0] as u32 != 0);
            assert forall|i: int| 0 <= i < name.len() implies name[i] != '\0' by {
                if i > 0 {
                    assert(rest[i - 1] == name[i]);
                }
            }
        }
    }
}

/// Says whether `name` holds no NUL character.
pub fn is_nul_free(name: &str) -> (ok: bool)
    ensures
        ok == nul_free(name@),
{
    let bytes = name.as_bytes();
    proof {
        lemma_nul_free_bytes(name@);
    }
    let mut at: usize = 0;
    while at < bytes.len()
        invariant
            at <= bytes@.len(),
            bytes@ == encode_utf8(name@),
            nul_free(name@) <==> no_zero_byte(bytes@),
            forall|i: int| 0 <= i < at ==> bytes@[i] != 0,
        decreases bytes@.len() - at,
    {
        if bytes[at] == 0 {
            assert(!no_zero_byte(bytes@));
            return false;
        }
        at += 1;
    }
    true
}

/// Says whether every name of `names` holds no NUL character.
pub fn are_nul_free(names: &Vec<String>) -> (ok: bool)
    ensures
        ok == all_nul_free(names@),
{
    let mut at: usize = 0;
    while at < names.len()
        invariant
            at <= names@.len(),
            forall|i: int| 0 <= i < at ==> nul_free(#[trigger] names@[i]@),
        decreases names@.len() - at,
    {
        if !is_nul_free(names[at].as_str()) {
            return false;
        }
        at += 1;
    }
    true
}

/// The settings of one compile request.
///
/// A name or a list that is `None` is absent: the compiler is told nothing
/// of it. A list that is present holds its names in order.
#[allow(non_snake_case)]
#[derive(Clone, Debug)]
pub struct LuaCompileOptions {
    /// How hard to optimise: 0 is off, 1 keeps the code debuggable, 2 does not.
    pub optimizationLevel: i32,
    /// How much debug information to keep: 0 none, 1 lines and function
    /// names, 2 local and upvalue names as well.
    pub debugLevel: i32,
    /// For which modules to emit type information: 0 native ones, 1 all.
    pub typeInfoLevel: i32,
    /// How much coverage to instrument: 0 none, 1 statements, 2 expressions too.
    pub coverageLevel: i32,
    /// The library of a further builtin that constructs vectors.
    pub vectorLib: Option<String>,
    /// The name of that builtin within its library.
    pub vectorCtor: Option<String>,
    /// A further name for the vector type.
    pub vectorType: Option<String>,
    /// The globals that may change, so that their fields are not imported early.
    pub mutableGlobals: Option<Vec<String>>,
    /// The userdata types that the type information may name.
    pub userdataTypes: Option<Vec<String>>,
    /// The globals that act as libraries whose members are known beforehand.
    pub librariesWithKnownMembers: Option<Vec<String>>,
    /// The library functions that must not become builtin calls.
    pub disabledBuiltins: Option<Vec<String>>,
}

/// Whether a name, if present, holds no NUL character.
pub open spec fn name_fits(name: Option<String>) -> bool {
    name matches Some(text) ==> nul_free(text@)
}

/// Whether the names of a list, if present, hold no NUL character.
pub open spec fn list_fits(names: Option<Vec<String>>) -> bool {
    names matches Some(list) ==> all_nul_free(list@)
}

fn name_is_fit(name: &Option<String>) -> (ok: bool)
    ensures
        ok == name_fits(*name),
{
    match name {
        Some(text) => is_nul_free(text.as_str()),
        None => true,
    }
}

fn list_is_fit(names: &Option<Vec<String>>) -> (ok: bool)
    ensures
        ok == list_fits(*names),
{
    match names {
        Some(list) => are_nul_free(list),
        None => true,
    }
}

impl LuaCompileOptions {
    /// Whether these settings can cross to the compiler: every name that is
    /// present can be handed over as text that a zero byte ends.
    pub open spec fn well_formed(&self) -> bool {
        &&& name_fits(self.vectorLib)
        &&& name_fits(self.vectorCtor)
        &&& name_fits(self.vectorType)
        &&& list_fits(self.mutableGlobals)
        &&& list_fits(self.userdataTypes)
        &&& list_fits(self.librariesWithKnownMembers)
        &&& list_fits(self.disabledBuiltins)
    }

    /// Whether these are the settings that the compiler uses when it is
    /// given none: baseline optimisation, line information, no type
    /// information beyond native modules, no coverage, and no names.
    pub open spec fn is_default(&self) -> bool {
        &&& self.optimizationLevel == 1
        &&& self.debugLevel == 1
        &&& self.typeInfoLevel == 0
        &&& self.coverageLevel == 0
        &&& self.vectorLib is None
        &&& self.vectorCtor is None
        &&& self.vectorType is None
        &&& self.mutableGlobals is None
        &&& self.userdataTypes is None
        &&& self.librariesWithKnownMembers is None
        &&& self.disabledBuiltins is None
    }

    /// Says whether these settings can cross to the compiler.
    pub fn is_well_formed(&self) -> (ok: bool)
        ensures
            ok == self.well_formed(),
    {
        name_is_fit(&self.vectorLib) && name_is_fit(&self.vectorCtor) && name_is_fit(
            &self.vectorType,
        ) && list_is_fit(&self.mutableGlobals) && list_is_fit(&self.userdataTypes) && list_is_fit(
            &self.librariesWithKnownMembers,
        ) && list_is_fit(&self.disabledBuiltins)
    }
}

impl Default for LuaCompileOptions {
    fn default() -> (options: LuaCompileOptions)
        ensures
            options.is_default(),
            options.well_formed(),
    {
        LuaCompileOptions {
            optimizationLevel: 1,
            debugLevel: 1,
            typeInfoLevel: 0,
            coverageLevel: 0,
            vectorLib: None,
            vectorCtor: None,
            vectorType: None,
            mutableGlobals: None,
            userdataTypes: None,
            librariesWithKnownMembers: None,
            disabledBuiltins: None,
        }
    }
}

} // verus!
