//! The expansion of the `btf_map!` macro: a map definition whose integer
//! parameters are array lengths and whose key and value types are pointee types,
//! so that all of them appear in BTF.

use vstd::prelude::*;
use proc_macro2::TokenStream;
use crate::text::str_has_char;

verus! {

#[verifier::external_type_specification]
#[verifier::external_body]
pub struct ExTokenStream(TokenStream);

/// The section that map definitions are placed in.
pub const MAPS_SECTION: &'static str = ".maps";

/// The arguments of `btf_map!`, each the text of that argument's tokens.
pub struct BtfMapArgs {
    pub name: String,
    pub map_type: String,
    pub key_type: String,
    pub value_type: String,
    pub max_entries: String,
    pub map_flags: String,
}

/// The name of the struct type that describes the map `name` in BTF.
pub open spec fn btf_type_name_text(name: Seq<char>) -> Seq<char> {
    "_ty_"@ + name
}

/// The name of the struct type that describes the map `name` in BTF: `name`
/// behind the prefix `_ty_`.
pub fn btf_type_name(name: &str) -> (s: String)
    ensures
        s@ == btf_type_name_text(name@),
{
    let mut s = String::from_str("_ty_");
    s.append(name);
    s
}

/// An array type of `i32` whose length is the value of `len`.
pub open spec fn array_type_text(len: Seq<char>) -> Seq<char> {
    "[i32 ; ("@ + len + ") as usize]"@
}

/// A pointer to a zeroed `i32` array whose length is the value of `len`.
pub open spec fn zero_array_text(len: Seq<char>) -> Seq<char> {
    "& [0i32 ; ("@ + len + ") as usize] as * const "@ + array_type_text(len)
}

/// The struct that describes the map in BTF: the map type, maximum entries and
/// flags as array lengths, the key and value types as pointee types, in that
/// field order: type, key, value, max_entries, map_flags.
pub open spec fn btf_struct_text(a: BtfMapArgs) -> Seq<char> {
    "pub struct "@ + btf_type_name_text(a.name@) + " { pub r#type : * const "@
        + array_type_text(a.map_type@) + " , pub key : * const "@ + a.key_type@
        + " , pub value : * const "@ + a.value_type@ + " , pub max_entries : * const "@
        + array_type_text(a.max_entries@) + " , pub map_flags : * const "@
        + array_type_text(a.map_flags@) + " , } "@
}

/// The map itself: a static of that struct in the `.maps` section, exported under
/// the map's name, its array pointers pointing at zeroed arrays and its key and
/// value pointers null.
pub open spec fn btf_static_text(a: BtfMapArgs) -> Seq<char> {
    "# [link_section = \".maps\"] # [export_name = \""@ + a.name@ + "\"] pub static mut "@
        + a.name@ + " : "@ + btf_type_name_text(a.name@) + " = "@ + btf_type_name_text(a.name@)
        + " { r#type : "@ + zero_array_text(a.map_type@)
        + " , key : :: core :: ptr :: null () , value : :: core :: ptr :: null () , max_entries : "@
        + zero_array_text(a.max_entries@) + " , map_flags : "@ + zero_array_text(a.map_flags@)
        + " , } ;"@
}

/// The whole expansion of `btf_map!` as text.
pub open spec fn btf_map_text(a: BtfMapArgs) -> Seq<char> {
    btf_struct_text(a) + btf_static_text(a)
}

fn push_array_type(s: &mut String, len: &str)
    ensures
        final(s)@ == old(s)@ + array_type_text(len@),
{
    s.append("[i32 ; (");
    s.append(len);
    s.append(") as usize]");
    proof {
        assert(final(s)@ =~= old(s)@ + array_type_text(len@)) by {
            assert(array_type_text(len@) =~= "[i32 ; ("@ + len@ + ") as usize]"@);
        }
    }
}

fn push_zero_array(s: &mut String, len: &str)
    ensures
        final(s)@ == old(s)@ + zero_array_text(len@),
{
    s.append("& [0i32 ; (");
    s.append(len);
    s.append(") as usize] as * const ");
    push_array_type(s, len);
    proof {
        assert(final(s)@ =~= old(s)@ + zero_array_text(len@));
    }
}

/// The whole expansion of `btf_map!` as source text.
pub fn btf_map_source(a: &BtfMapArgs) -> (s: String)
    ensures
        s@ == btf_map_text(*a),
{
    let ty = btf_type_name(a.name.as_str());
    let mut s = String::from_str("pub struct ");
    s.append(ty.as_str());
    s.append(" { pub r#type : * const ");
    push_array_type(&mut s, a.map_type.as_str());
    s.append(" , pub key : * const ");
    s.append(a.key_type.as_str());
    s.append(" , pub value : * const ");
    s.append(a.value_type.as_str());
    s.append(" , pub max_entries : * const ");
    push_array_type(&mut s, a.max_entries.as_str());
    s.append(" , pub map_flags : * const ");
    push_array_type(&mut s, a.map_flags.as_str());
    s.append(" , } ");
    let ghost struct_part = s@;
    assert(struct_part =~= btf_struct_text(*a));
    s.append("# [link_section = \".maps\"] # [export_name = \"");
    s.append(a.name.as_str());
    s.append("\"] pub static mut ");
    s.append(a.name.as_str());
    s.append(" : ");
    s.append(ty.as_str());
    s.append(" = ");
    s.append(ty.as_str());
    s.append(" { r#type : ");
    push_zero_array(&mut s, a.map_type.as_str());
    s.append(" , key : :: core :: ptr :: null () , value : :: core :: ptr :: null () , max_entries : ");
    push_zero_array(&mut s, a.max_entries.as_str());
    s.append(" , map_flags : ");
    push_zero_array(&mut s, a.map_flags.as_str());
    s.append(" , } ;");
    assert(s@ =~= struct_part + btf_static_text(*a));
    s
}

/// Whether proc_macro2's own lexer (its fallback lexer) accepts `text` as Rust
/// tokens: a matter of the text alone.
pub uninterp spec fn lexes(text: Seq<char>) -> bool;

/// `<proc_macro2::TokenStream as FromStr>::from_str`, its error dropped.
/// Claimed: tokens come back only for a text that proc_macro2's own lexer
/// accepts. Outside a procedural macro that lexer alone decides; inside one it
/// validates the text first, and the compiler's lexer must then accept it too,
/// so a text it accepts may still give `None`: the claim is one-way. On the panics
/// that the trait impl's documentation allows: the own lexer returns errors, and
/// the compiler's lexer is only reached after that validation and is run under
/// `catch_unwind`, its panic turned into an error. What the tokens are is left
/// unsaid: the type is opaque here.
#[verifier::external_body]
fn parse_tokens(text: &str) -> (r: Option<TokenStream>)
    ensures
        r is Some ==> lexes(text@),
{
    text.parse::<TokenStream>().ok()
}

/// The expansion of `btf_map!` as tokens: the text `btf_map_source` writes,
/// lexed. Tokens come back only where that text lexes; whether the lexer accepts
/// it is the lexer's decision. A raw identifier as the map's name (one holding
/// `#`) makes no valid struct name and is left out.
pub fn btf_map(a: &BtfMapArgs) -> (r: Option<TokenStream>)
    requires
        !a.name@.contains('#'),
    ensures
        r is Some ==> lexes(btf_map_text(*a)),
{
    let s = btf_map_source(a);
    parse_tokens(s.as_str())
}

/// Whether a map name can be expanded: it is no raw identifier.
pub fn expandable_name(name: &str) -> (b: bool)
    ensures
        b == !name@.contains('#'),
{
    !str_has_char(name, '#')
}

/// Whether `w` occurs in `t` as a contiguous part.
pub open spec fn has_infix(t: Seq<char>, w: Seq<char>) -> bool {
    exists|i: int| 0 <= i && i + w.len() <= t.len() && #[trigger] t.subrange(i, i + w.len()) == w
}

proof fn lemma_infix_at(t: Seq<char>, k: int, w: Seq<char>)
    requires
        0 <= k,
        k + w.len() <= t.len(),
        t.subrange(k, k + w.len()) == w,
    ensures
        has_infix(t, w),
{
}

proof fn lemma_struct_infixes(
    p: Seq<char>,
    ty: Seq<char>,
    l_type: Seq<char>,
    arr_mt: Seq<char>,
    l_key: Seq<char>,
    key: Seq<char>,
    l_value: Seq<char>,
    value: Seq<char>,
    l_max: Seq<char>,
    arr_max: Seq<char>,
    l_flags: Seq<char>,
    arr_fl: Seq<char>,
    l_end: Seq<char>,
    rest: Seq<char>,
)
    ensures
        ({
            let t = p + ty + l_type + arr_mt + l_key + key + l_value + value + l_max + arr_max
                + l_flags + arr_fl + l_end + rest;
            &&& t.take((p + ty).len() as int) == p + ty
            &&& has_infix(t, l_type + arr_mt + l_key)
            &&& has_infix(t, l_key + key + l_value)
            &&& has_infix(t, l_value + value + l_max)
            &&& has_infix(t, l_max + arr_max + l_flags)
            &&& has_infix(t, l_flags + arr_fl + l_end)
        }),
{
    let t = p + ty + l_type + arr_mt + l_key + key + l_value + value + l_max + arr_max + l_flags
        + arr_fl + l_end + rest;
    let k1 = (p + ty).len() as int;
    assert(t.take(k1) =~= p + ty);
    let w1 = l_type + arr_mt + l_key;
    assert(t.subrange(k1, k1 + w1.len()) =~= w1);
    lemma_infix_at(t, k1, w1);
    let k2 = k1 + l_type.len() + arr_mt.len();
    let w2 = l_key + key + l_value;
    assert(t.subrange(k2, k2 + w2.len()) =~= w2);
    lemma_infix_at(t, k2, w2);
    let k3 = k2 + l_key.len() + key.len();
    let w3 = l_value + value + l_max;
    assert(t.subrange(k3, k3 + w3.len()) =~= w3);
    lemma_infix_at(t, k3, w3);
    let k4 = k3 + l_value.len() + value.len();
    let w4 = l_max + arr_max + l_flags;
    assert(t.subrange(k4, k4 + w4.len()) =~= w4);
    lemma_infix_at(t, k4, w4);
    let k5 = k4 + l_max.len() + arr_max.len();
    let w5 = l_flags + arr_fl + l_end;
    assert(t.subrange(k5, k5 + w5.len()) =~= w5);
    lemma_infix_at(t, k5, w5);
}

proof fn lemma_static_infixes(
    pre: Seq<char>,
    h1: Seq<char>,
    name: Seq<char>,
    h2: Seq<char>,
    h3: Seq<char>,
    ty: Seq<char>,
    h4: Seq<char>,
    s_type: Seq<char>,
    z_mt: Seq<char>,
    s_mid: Seq<char>,
    z_max: Seq<char>,
    s_flags: Seq<char>,
    z_fl: Seq<char>,
    s_end: Seq<char>,
)
    ensures
        ({
            let t = pre + (h1 + name + h2 + name + h3 + ty + h4 + ty + s_type + z_mt + s_mid + z_max
                + s_flags + z_fl + s_end);
            &&& has_infix(t, h1 + name + h2 + name + h3 + ty + h4 + ty)
            &&& has_infix(t, s_type + z_mt)
            &&& has_infix(t, s_mid + z_max + s_flags)
            &&& has_infix(t, s_flags + z_fl + s_end)
        }),
{
    let sta = h1 + name + h2 + name + h3 + ty + h4 + ty + s_type + z_mt + s_mid + z_max + s_flags
        + z_fl + s_end;
    let t = pre + sta;
    let w6 = h1 + name + h2 + name + h3 + ty + h4 + ty;
    let k6 = pre.len() as int;
    assert(t.subrange(k6, k6 + w6.len()) =~= w6);
    lemma_infix_at(t, k6, w6);
    let k7 = k6 + w6.len();
    let w7 = s_type + z_mt;
    assert(t.subrange(k7, k7 + w7.len()) =~= w7);
    lemma_infix_at(t, k7, w7);
    let k8 = k7 + w7.len();
    let w8 = s_mid + z_max + s_flags;
    assert(t.subrange(k8, k8 + w8.len()) =~= w8);
    lemma_infix_at(t, k8, w8);
    let k9 = k8 + s_mid.len() + z_max.len();
    let w9 = s_flags + z_fl + s_end;
    assert(t.subrange(k9, k9 + w9.len()) =~= w9);
    lemma_infix_at(t, k9, w9);
}

/// What `btf_map!` expands to, field by field: the struct `_ty_<name>` whose
/// `type`, `max_entries` and `map_flags` fields point to `i32` arrays whose lengths
/// are the map type, maximum entries and flags arguments, and whose `key` and
/// `value` fields point to the key and value type arguments, in that order; then
/// the map itself, a static named after the map, exported under its name in the
/// `.maps` section, whose array pointers point to zeroed arrays of the same
/// lengths and whose key and value pointers are null.
pub proof fn law_btf_map_fields(a: BtfMapArgs)
    ensures
        ({
            let t = btf_map_text(a);
            let name = a.name@;
            let ty = "_ty_"@ + name;
            &&& t.take(("pub struct "@ + ty).len() as int) == "pub struct "@ + ty
            &&& has_infix(t, " { pub r#type : * const "@ + ("[i32 ; ("@ + a.map_type@ + ") as usize]"@) + " , pub key : * const "@)
            &&& has_infix(t, " , pub key : * const "@ + a.key_type@ + " , pub value : * const "@)
            &&& has_infix(t, " , pub value : * const "@ + a.value_type@ + " , pub max_entries : * const "@)
            &&& has_infix(t, " , pub max_entries : * const "@ + ("[i32 ; ("@ + a.max_entries@ + ") as usize]"@) + " , pub map_flags : * const "@)
            &&& has_infix(t, " , pub map_flags : * const "@ + ("[i32 ; ("@ + a.map_flags@ + ") as usize]"@) + " , } "@)
            &&& has_infix(t, "# [link_section = \".maps\"] # [export_name = \""@ + name + "\"] pub static mut "@ + name + " : "@ + ty + " = "@ + ty)
            &&& has_infix(t, " { r#type : "@ + ("& [0i32 ; ("@ + a.map_type@ + ") as usize] as * const "@ + ("[i32 ; ("@ + a.map_type@ + ") as usize]"@)))
            &&& has_infix(t, " , key : :: core :: ptr :: null () , value : :: core :: ptr :: null () , max_entries : "@ + ("& [0i32 ; ("@ + a.max_entries@ + ") as usize] as * const "@ + ("[i32 ; ("@ + a.max_entries@ + ") as usize]"@)) + " , map_flags : "@)
            &&& has_infix(t, " , map_flags : "@ + ("& [0i32 ; ("@ + a.map_flags@ + ") as usize] as * const "@ + ("[i32 ; ("@ + a.map_flags@ + ") as usize]"@)) + " , } ;"@)
        }),
{
    let name = a.name@;
    let ty = btf_type_name_text(name);
    lemma_struct_infixes(
        "pub struct "@,
        ty,
        " { pub r#type : * const "@,
        array_type_text(a.map_type@),
        " , pub key : * const "@,
        a.key_type@,
        " , pub value : * const "@,
        a.value_type@,
        " , pub max_entries : * const "@,
        array_type_text(a.max_entries@),
        " , pub map_flags : * const "@,
        array_type_text(a.map_flags@),
        " , } "@,
        btf_static_text(a),
    );
    lemma_static_infixes(
        btf_struct_text(a),
        "# [link_section = \".maps\"] # [export_name = \""@,
        name,
        "\"] pub static mut "@,
        " : "@,
        ty,
        " = "@,
        " { r#type : "@,
        zero_array_text(a.map_type@),
        " , key : :: core :: ptr :: null () , value : :: core :: ptr :: null () , max_entries : "@,
        zero_array_text(a.max_entries@),
        " , map_flags : "@,
        zero_array_text(a.map_flags@),
        " , } ;"@,
    );
}

} // verus!
