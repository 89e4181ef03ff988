//! The library's general laws, stated and proved once for all inputs:
//! what the built-in defaults resolve to, that explicit overrides are
//! never overridden, that a merge leaves no role without a spelling, that
//! unknown locales are synthesized, how a shared spelling is resolved,
//! and that a reverse map with distinct spellings carries one binding per
//! role.

use vstd::prelude::*;
use crate::language_config::{
    KwView, PartialKwView, PartialMooConfig, default_config_view, default_set_view,
    en_default_view, es_default_view, kw_all_roles_nonempty, kw_spellings_distinct, merge_kw_view,
    merge_entry_view, merge_value_view, merged_config_view, partial_all_set, partial_fields_of,
    partial_set_fields_nonempty, spellings_of,
};
use crate::assoc::{lemma_assoc_view_dom, lemma_assoc_view_index, unique_keys};
use crate::keyword_manager::{resolve_view, reverse_map_view, role_token_view};
use crate::tokens::TokenType;

verus! {

// ================================
// Shared pieces of the proofs
// ================================

/// Spells out where each role stands in the fixed role order.
proof fn lemma_spelling_links(k: KwView)
    ensures
        spellings_of(k)[0] == k.print,
        spellings_of(k)[1] == k.text_type,
        spellings_of(k)[2] == k.number_type,
        spellings_of(k)[3] == k.decimal_type,
        spellings_of(k)[4] == k.boolean_type,
        spellings_of(k)[5] == k.array_type,
        spellings_of(k)[6] == k.map_type,
        spellings_of(k)[7] == k.if_keyword,
        spellings_of(k)[8] == k.else_if_keyword,
        spellings_of(k)[9] == k.else_keyword,
        spellings_of(k)[10] == k.while_keyword,
        spellings_of(k)[11] == k.for_keyword,
        spellings_of(k)[12] == k.in_keyword,
        spellings_of(k)[13] == k.function_keyword,
        spellings_of(k)[14] == k.return_keyword,
        spellings_of(k)[15] == k.is_keyword,
        spellings_of(k)[16] == k.is_not_keyword,
        spellings_of(k)[17] == k.range_keyword,
{
}

/// Spells out where each optional field of a partial set stands in the
/// fixed role order.
proof fn lemma_partial_field_links(p: PartialKwView)
    ensures
        partial_fields_of(p)[0] == p.print,
        partial_fields_of(p)[1] == p.text_type,
        partial_fields_of(p)[2] == p.number_type,
        partial_fields_of(p)[3] == p.decimal_type,
        partial_fields_of(p)[4] == p.boolean_type,
        partial_fields_of(p)[5] == p.array_type,
        partial_fields_of(p)[6] == p.map_type,
        partial_fields_of(p)[7] == p.if_keyword,
        partial_fields_of(p)[8] == p.else_if_keyword,
        partial_fields_of(p)[9] == p.else_keyword,
        partial_fields_of(p)[10] == p.while_keyword,
        partial_fields_of(p)[11] == p.for_keyword,
        partial_fields_of(p)[12] == p.in_keyword,
        partial_fields_of(p)[13] == p.function_keyword,
        partial_fields_of(p)[14] == p.return_keyword,
        partial_fields_of(p)[15] == p.is_keyword,
        partial_fields_of(p)[16] == p.is_not_keyword,
        partial_fields_of(p)[17] == p.range_keyword,
{
}

/// The characters of every built-in English spelling.
proof fn lemma_en_spellings_concrete()
    ensures
        ("barn"@).len() == 4,
        ("barn"@)[0] == 'b',
        ("barn"@)[1] == 'a',
        ("barn"@)[2] == 'r',
        ("barn"@)[3] == 'n',
        ("barn_map"@).len() == 8,
        ("barn_map"@)[0] == 'b',
        ("barn_map"@)[1] == 'a',
        ("barn_map"@)[2] == 'r',
        ("barn_map"@)[3] == 'n',
        ("barn_map"@)[4] == '_',
        ("barn_map"@)[5] == 'm',
        ("barn_map"@)[6] == 'a',
        ("barn_map"@)[7] == 'p',
        ("boolean"@).len() == 7,
        ("boolean"@)[0] == 'b',
        ("boolean"@)[1] == 'o',
        ("boolean"@)[2] == 'o',
        ("boolean"@)[3] == 'l',
        ("boolean"@)[4] == 'e',
        ("boolean"@)[5] == 'a',
        ("boolean"@)[6] == 'n',
        ("coop"@).len() == 4,
        ("coop"@)[0] == 'c',
        ("coop"@)[1] == 'o',
        ("coop"@)[2] == 'o',
        ("coop"@)[3] == 'p',
        ("dec"@).len() == 3,
        ("dec"@)[0] == 'd',
        ("dec"@)[1] == 'e',
        ("dec"@)[2] == 'c',
        ("else"@).len() == 4,
        ("else"@)[0] == 'e',
        ("else"@)[1] == 'l',
        ("else"@)[2] == 's',
        ("else"@)[3] == 'e',
        ("else if"@).len() == 7,
        ("else if"@)[0] == 'e',
        ("else if"@)[1] == 'l',
        ("else if"@)[2] == 's',
        ("else if"@)[3] == 'e',
        ("else if"@)[4] == ' ',
        ("else if"@)[5] == 'i',
        ("else if"@)[6] == 'f',
        ("farmfunction"@).len() == 12,
        ("farmfunction"@)[0] == 'f',
        ("farmfunction"@)[1] == 'a',
        ("farmfunction"@)[2] == 'r',
        ("farmfunction"@)[3] == 'm',
        ("farmfunction"@)[4] == 'f',
        ("farmfunction"@)[5] == 'u',
        ("farmfunction"@)[6] == 'n',
        ("farmfunction"@)[7] == 'c',
        ("farmfunction"@)[8] == 't',
        ("farmfunction"@)[9] == 'i',
        ("farmfunction"@)[10] == 'o',
        ("farmfunction"@)[11] == 'n',
        ("for"@).len() == 3,
        ("for"@)[0] == 'f',
        ("for"@)[1] == 'o',
        ("for"@)[2] == 'r',
        ("if"@).len() == 2,
        ("if"@)[0] == 'i',
        ("if"@)[1] == 'f',
        ("in"@).len() == 2,
        ("in"@)[0] == 'i',
        ("in"@)[1] == 'n',
        ("is"@).len() == 2,
        ("is"@)[0] == 'i',
        ("is"@)[1] == 's',
        ("is not"@).len() == 6,
        ("is not"@)[0] == 'i',
        ("is not"@)[1] == 's',
        ("is not"@)[2] == ' ',
        ("is not"@)[3] == 'n',
        ("is not"@)[4] == 'o',
        ("is not"@)[5] == 't',
        ("moo"@).len() == 3,
        ("moo"@)[0] == 'm',
        ("moo"@)[1] == 'o',
        ("moo"@)[2] == 'o',
        ("num"@).len() == 3,
        ("num"@)[0] == 'n',
        ("num"@)[1] == 'u',
        ("num"@)[2] == 'm',
        ("return"@).len() == 6,
        ("return"@)[0] == 'r',
        ("return"@)[1] == 'e',
        ("return"@)[2] == 't',
        ("return"@)[3] == 'u',
        ("return"@)[4] == 'r',
        ("return"@)[5] == 'n',
        ("text"@).len() == 4,
        ("text"@)[0] == 't',
        ("text"@)[1] == 'e',
        ("text"@)[2] == 'x',
        ("text"@)[3] == 't',
        ("while"@).len() == 5,
        ("while"@)[0] == 'w',
        ("while"@)[1] == 'h',
        ("while"@)[2] == 'i',
        ("while"@)[3] == 'l',
        ("while"@)[4] == 'e',
{
    reveal_strlit("barn");
    reveal_strlit("barn_map");
    reveal_strlit("boolean");
    reveal_strlit("coop");
    reveal_strlit("dec");
    reveal_strlit("else");
    reveal_strlit("else if");
    reveal_strlit("farmfunction");
    reveal_strlit("for");
    reveal_strlit("if");
    reveal_strlit("in");
    reveal_strlit("is");
    reveal_strlit("is not");
    reveal_strlit("moo");
    reveal_strlit("num");
    reveal_strlit("return");
    reveal_strlit("text");
    reveal_strlit("while");
}

/// The characters of every built-in Spanish spelling.
proof fn lemma_es_spellings_concrete()
    ensures
        ("booleano"@).len() == 8,
        ("booleano"@)[0] == 'b',
        ("booleano"@)[1] == 'o',
        ("booleano"@)[2] == 'o',
        ("booleano"@)[3] == 'l',
        ("booleano"@)[4] == 'e',
        ("booleano"@)[5] == 'a',
        ("booleano"@)[6] == 'n',
        ("booleano"@)[7] == 'o',
        ("decimal"@).len() == 7,
        ("decimal"@)[0] == 'd',
        ("decimal"@)[1] == 'e',
        ("decimal"@)[2] == 'c',
        ("decimal"@)[3] == 'i',
        ("decimal"@)[4] == 'm',
        ("decimal"@)[5] == 'a',
        ("decimal"@)[6] == 'l',
        ("en"@).len() == 2,
        ("en"@)[0] == 'e',
        ("en"@)[1] == 'n',
        ("es"@).len() == 2,
        ("es"@)[0] == 'e',
        ("es"@)[1] == 's',
        ("funciongranja"@).len() == 13,
        ("funciongranja"@)[0] == 'f',
        ("funciongranja"@)[1] == 'u',
        ("funciongranja"@)[2] == 'n',
        ("funciongranja"@)[3] == 'c',
        ("funciongranja"@)[4] == 'i',
        ("funciongranja"@)[5] == 'o',
        ("funciongranja"@)[6] == 'n',
        ("funciongranja"@)[7] == 'g',
        ("funciongranja"@)[8] == 'r',
        ("funciongranja"@)[9] == 'a',
        ("funciongranja"@)[10] == 'n',
        ("funciongranja"@)[11] == 'j',
        ("funciongranja"@)[12] == 'a',
        ("granero"@).len() == 7,
        ("granero"@)[0] == 'g',
        ("granero"@)[1] == 'r',
        ("granero"@)[2] == 'a',
        ("granero"@)[3] == 'n',
        ("granero"@)[4] == 'e',
        ("granero"@)[5] == 'r',
        ("granero"@)[6] == 'o',
        ("granja"@).len() == 6,
        ("granja"@)[0] == 'g',
        ("granja"@)[1] == 'r',
        ("granja"@)[2] == 'a',
        ("granja"@)[3] == 'n',
        ("granja"@)[4] == 'j',
        ("granja"@)[5] == 'a',
        ("mapa_establo"@).len() == 12,
        ("mapa_establo"@)[0] == 'm',
        ("mapa_establo"@)[1] == 'a',
        ("mapa_establo"@)[2] == 'p',
        ("mapa_establo"@)[3] == 'a',
        ("mapa_establo"@)[4] == '_',
        ("mapa_establo"@)[5] == 'e',
        ("mapa_establo"@)[6] == 's',
        ("mapa_establo"@)[7] == 't',
        ("mapa_establo"@)[8] == 'a',
        ("mapa_establo"@)[9] == 'b',
        ("mapa_establo"@)[10] == 'l',
        ("mapa_establo"@)[11] == 'o',
        ("mientras"@).len() == 8,
        ("mientras"@)[0] == 'm',
        ("mientras"@)[1] == 'i',
        ("mientras"@)[2] == 'e',
        ("mientras"@)[3] == 'n',
        ("mientras"@)[4] == 't',
        ("mientras"@)[5] == 'r',
        ("mientras"@)[6] == 'a',
        ("mientras"@)[7] == 's',
        ("muuu"@).len() == 4,
        ("muuu"@)[0] == 'm',
        ("muuu"@)[1] == 'u',
        ("muuu"@)[2] == 'u',
        ("muuu"@)[3] == 'u',
        ("no es"@).len() == 5,
        ("no es"@)[0] == 'n',
        ("no es"@)[1] == 'o',
        ("no es"@)[2] == ' ',
        ("no es"@)[3] == 'e',
        ("no es"@)[4] == 's',
        ("numero"@).len() == 6,
        ("numero"@)[0] == 'n',
        ("numero"@)[1] == 'u',
        ("numero"@)[2] == 'm',
        ("numero"@)[3] == 'e',
        ("numero"@)[4] == 'r',
        ("numero"@)[5] == 'o',
        ("para"@).len() == 4,
        ("para"@)[0] == 'p',
        ("para"@)[1] == 'a',
        ("para"@)[2] == 'r',
        ("para"@)[3] == 'a',
        ("regresa"@).len() == 7,
        ("regresa"@)[0] == 'r',
        ("regresa"@)[1] == 'e',
        ("regresa"@)[2] == 'g',
        ("regresa"@)[3] == 'r',
        ("regresa"@)[4] == 'e',
        ("regresa"@)[5] == 's',
        ("regresa"@)[6] == 'a',
        ("si"@).len() == 2,
        ("si"@)[0] == 's',
        ("si"@)[1] == 'i',
        ("sino"@).len() == 4,
        ("sino"@)[0] == 's',
        ("sino"@)[1] == 'i',
        ("sino"@)[2] == 'n',
        ("sino"@)[3] == 'o',
        ("sino si"@).len() == 7,
        ("sino si"@)[0] == 's',
        ("sino si"@)[1] == 'i',
        ("sino si"@)[2] == 'n',
        ("sino si"@)[3] == 'o',
        ("sino si"@)[4] == ' ',
        ("sino si"@)[5] == 's',
        ("sino si"@)[6] == 'i',
        ("texto"@).len() == 5,
        ("texto"@)[0] == 't',
        ("texto"@)[1] == 'e',
        ("texto"@)[2] == 'x',
        ("texto"@)[3] == 't',
        ("texto"@)[4] == 'o',
{
    reveal_strlit("booleano");
    reveal_strlit("decimal");
    reveal_strlit("en");
    reveal_strlit("es");
    reveal_strlit("funciongranja");
    reveal_strlit("granero");
    reveal_strlit("granja");
    reveal_strlit("mapa_establo");
    reveal_strlit("mientras");
    reveal_strlit("muuu");
    reveal_strlit("no es");
    reveal_strlit("numero");
    reveal_strlit("para");
    reveal_strlit("regresa");
    reveal_strlit("si");
    reveal_strlit("sino");
    reveal_strlit("sino si");
    reveal_strlit("texto");
}

/// The two built-in locale identifiers differ.
proof fn lemma_locale_keys_distinct()
    ensures
        "en"@ != "es"@,
{
    reveal_strlit("en");
    reveal_strlit("es");
    assert(("en"@)[1] == 'n' && ("es"@)[1] == 's');
}

// ================================
// The laws
// ================================

/// The built-in English spellings are pairwise distinct and non-empty.
#[verifier::rlimit(100)]
pub proof fn lemma_en_defaults_distinct()
    ensures
        kw_spellings_distinct(en_default_view()),
        kw_all_roles_nonempty(en_default_view()),
{
    lemma_en_spellings_concrete();
    lemma_spelling_links(en_default_view());
}

/// The built-in Spanish spellings are pairwise distinct and non-empty.
#[verifier::rlimit(100)]
pub proof fn lemma_es_defaults_distinct()
    ensures
        kw_spellings_distinct(es_default_view()),
        kw_all_roles_nonempty(es_default_view()),
{
    lemma_es_spellings_concrete();
    lemma_spelling_links(es_default_view());
}

/// The built-in English and Spanish spelling sets are disjoint: no word
/// is a keyword of both locales.
#[verifier::rlimit(100)]
pub proof fn lemma_default_sets_disjoint()
    ensures
        forall|i: int, j: int|
            0 <= i < 18 && 0 <= j < 18 ==> #[trigger] spellings_of(en_default_view())[i]
                != #[trigger] spellings_of(es_default_view())[j],
{
    lemma_en_spellings_concrete();
    lemma_es_spellings_concrete();
    lemma_spelling_links(en_default_view());
    lemma_spelling_links(es_default_view());
}

/// Under the built-in definition, every default English spelling resolves,
/// in locale "en", to the category its role activates there.
#[verifier::rlimit(100)]
pub proof fn lemma_en_default_resolution()
    ensures
        resolve_view(default_config_view(), "moo"@, "en"@) == Some(TokenType::Moo),
        resolve_view(default_config_view(), "text"@, "en"@) == Some(TokenType::Text),
        resolve_view(default_config_view(), "num"@, "en"@) == Some(TokenType::Num),
        resolve_view(default_config_view(), "dec"@, "en"@) == Some(TokenType::Dec),
        resolve_view(default_config_view(), "boolean"@, "en"@) == Some(TokenType::Boolean),
        resolve_view(default_config_view(), "coop"@, "en"@) == Some(TokenType::Coop),
        resolve_view(default_config_view(), "barn_map"@, "en"@) == Some(TokenType::BarnMap),
        resolve_view(default_config_view(), "if"@, "en"@) == Some(TokenType::If),
        resolve_view(default_config_view(), "else if"@, "en"@) == Some(TokenType::ElseIf),
        resolve_view(default_config_view(), "else"@, "en"@) == Some(TokenType::Else),
        resolve_view(default_config_view(), "while"@, "en"@) == Some(TokenType::While),
        resolve_view(default_config_view(), "for"@, "en"@) == Some(TokenType::For),
        resolve_view(default_config_view(), "in"@, "en"@) == Some(TokenType::In),
        resolve_view(default_config_view(), "farmfunction"@, "en"@) == Some(TokenType::Farmfunction),
        resolve_view(default_config_view(), "return"@, "en"@) == Some(TokenType::Return),
        resolve_view(default_config_view(), "is"@, "en"@) == Some(TokenType::Is),
        resolve_view(default_config_view(), "is not"@, "en"@) == Some(TokenType::IsNot),
        resolve_view(default_config_view(), "barn"@, "en"@) == Some(TokenType::Barn),
{
    lemma_locale_keys_distinct();
    lemma_en_defaults_distinct();
    lemma_spelling_links(en_default_view());
    assert(default_config_view().keywords[("en"@)] == en_default_view());
}

/// Under the built-in definition, every default Spanish spelling resolves,
/// in locale "es", to the category its role activates there — at the same
/// time as the English set resolves under "en".
#[verifier::rlimit(100)]
pub proof fn lemma_es_default_resolution()
    ensures
        resolve_view(default_config_view(), "muuu"@, "es"@) == Some(TokenType::Muuu),
        resolve_view(default_config_view(), "texto"@, "es"@) == Some(TokenType::Text),
        resolve_view(default_config_view(), "numero"@, "es"@) == Some(TokenType::Num),
        resolve_view(default_config_view(), "decimal"@, "es"@) == Some(TokenType::Dec),
        resolve_view(default_config_view(), "booleano"@, "es"@) == Some(TokenType::Boolean),
        resolve_view(default_config_view(), "granja"@, "es"@) == Some(TokenType::Granja),
        resolve_view(default_config_view(), "mapa_establo"@, "es"@) == Some(TokenType::MapaEstablo),
        resolve_view(default_config_view(), "si"@, "es"@) == Some(TokenType::If),
        resolve_view(default_config_view(), "sino si"@, "es"@) == Some(TokenType::SinoSi),
        resolve_view(default_config_view(), "sino"@, "es"@) == Some(TokenType::Else),
        resolve_view(default_config_view(), "mientras"@, "es"@) == Some(TokenType::Mientras),
        resolve_view(default_config_view(), "para"@, "es"@) == Some(TokenType::Para),
        resolve_view(default_config_view(), "en"@, "es"@) == Some(TokenType::En),
        resolve_view(default_config_view(), "funciongranja"@, "es"@) == Some(TokenType::Funciongranja),
        resolve_view(default_config_view(), "regresa"@, "es"@) == Some(TokenType::Regresa),
        resolve_view(default_config_view(), "es"@, "es"@) == Some(TokenType::Es),
        resolve_view(default_config_view(), "no es"@, "es"@) == Some(TokenType::NoEs),
        resolve_view(default_config_view(), "granero"@, "es"@) == Some(TokenType::Granero),
{
    lemma_locale_keys_distinct();
    lemma_es_defaults_distinct();
    lemma_spelling_links(es_default_view());
    assert(default_config_view().keywords[("es"@)] == es_default_view());
}

/// No cross-locale fallback under the built-in definition: the Spanish
/// "si" is no keyword of locale "en", nor the English "moo" of "es".
#[verifier::rlimit(100)]
pub proof fn lemma_no_cross_contamination()
    ensures
        resolve_view(default_config_view(), "si"@, "en"@) == None::<TokenType>,
        resolve_view(default_config_view(), "moo"@, "es"@) == None::<TokenType>,
{
    lemma_locale_keys_distinct();
    lemma_default_sets_disjoint();
    lemma_spelling_links(en_default_view());
    lemma_spelling_links(es_default_view());
    assert(default_config_view().keywords[("en"@)] == en_default_view());
    assert(default_config_view().keywords[("es"@)] == es_default_view());
}

/// Merge idempotence: over a partial set with every field present, the
/// defaults contribute nothing — any two defaults merge to the same set,
/// and each merged field is the partial's value verbatim.
pub proof fn lemma_merge_complete_override(d1: KwView, d2: KwView, p: PartialKwView)
    requires
        partial_all_set(p),
    ensures
        merge_kw_view(d1, p) == merge_kw_view(d2, p),
        forall|i: int|
            0 <= i < 18 ==> #[trigger] spellings_of(merge_kw_view(d1, p))[i] == partial_fields_of(
                p,
            )[i]->0,
{
    lemma_partial_field_links(p);
    lemma_spelling_links(merge_kw_view(d1, p));
    lemma_spelling_links(merge_kw_view(d2, p));
    assert(merge_kw_view(d1, p) =~= merge_kw_view(d2, p));
}

/// Merge total coverage: however sparse the partial set, every role of
/// the merged set has a non-empty spelling, given non-empty defaults and
/// no explicitly empty override.
pub proof fn lemma_merge_total_coverage(d: KwView, p: PartialKwView)
    requires
        kw_all_roles_nonempty(d),
        partial_set_fields_nonempty(p),
    ensures
        kw_all_roles_nonempty(merge_kw_view(d, p)),
{
    lemma_spelling_links(d);
    lemma_partial_field_links(p);
    lemma_spelling_links(merge_kw_view(d, p));
}

/// Every locale's fallback set — built-in, synthesized, or generic — has
/// a non-empty spelling for every role.
#[verifier::rlimit(100)]
pub proof fn lemma_default_set_nonempty(lang: Seq<char>)
    ensures
        kw_all_roles_nonempty(default_set_view(lang)),
{
    reveal_strlit("!=");
    reveal_strlit("==");
    reveal_strlit("array");
    reveal_strlit("barn");
    reveal_strlit("barn_map");
    reveal_strlit("bauernfunktion");
    reveal_strlit("bool");
    reveal_strlit("boolean");
    reveal_strlit("booleano");
    reveal_strlit("boolesch");
    reveal_strlit("coop");
    reveal_strlit("dec");
    reveal_strlit("decimal");
    reveal_strlit("dezimal");
    reveal_strlit("elif");
    reveal_strlit("else");
    reveal_strlit("else if");
    reveal_strlit("en");
    reveal_strlit("es");
    reveal_strlit("farmfunction");
    reveal_strlit("float");
    reveal_strlit("for");
    reveal_strlit("funciongranja");
    reveal_strlit("function");
    reveal_strlit("für");
    reveal_strlit("granero");
    reveal_strlit("granja");
    reveal_strlit("if");
    reveal_strlit("in");
    reveal_strlit("int");
    reveal_strlit("is");
    reveal_strlit("is not");
    reveal_strlit("ist");
    reveal_strlit("ist nicht");
    reveal_strlit("map");
    reveal_strlit("mapa_establo");
    reveal_strlit("mientras");
    reveal_strlit("moo");
    reveal_strlit("muh");
    reveal_strlit("muuu");
    reveal_strlit("no es");
    reveal_strlit("num");
    reveal_strlit("numero");
    reveal_strlit("nummer");
    reveal_strlit("para");
    reveal_strlit("print");
    reveal_strlit("range");
    reveal_strlit("regresa");
    reveal_strlit("return");
    reveal_strlit("scheune");
    reveal_strlit("si");
    reveal_strlit("sino");
    reveal_strlit("sino si");
    reveal_strlit("sonst");
    reveal_strlit("sonst wenn");
    reveal_strlit("stall");
    reveal_strlit("stall_karte");
    reveal_strlit("string");
    reveal_strlit("text");
    reveal_strlit("texto");
    reveal_strlit("wenn");
    reveal_strlit("while");
    reveal_strlit("während");
    reveal_strlit("zurück");
    reveal_strlit("в");
    reveal_strlit("вернуть");
    reveal_strlit("для");
    reveal_strlit("дробь");
    reveal_strlit("если");
    reveal_strlit("есть");
    reveal_strlit("загон");
    reveal_strlit("иначе");
    reveal_strlit("иначе если");
    reveal_strlit("карта_сарая");
    reveal_strlit("логический");
    reveal_strlit("му");
    reveal_strlit("не есть");
    reveal_strlit("пока");
    reveal_strlit("сарай");
    reveal_strlit("текст");
    reveal_strlit("фермафункция");
    reveal_strlit("число");
    assert(("!="@).len() > 0);
    assert(("=="@).len() > 0);
    assert(("array"@).len() > 0);
    assert(("barn"@).len() > 0);
    assert(("barn_map"@).len() > 0);
    assert(("bauernfunktion"@).len() > 0);
    assert(("bool"@).len() > 0);
    assert(("boolean"@).len() > 0);
    assert(("booleano"@).len() > 0);
    assert(("boolesch"@).len() > 0);
    assert(("coop"@).len() > 0);
    assert(("dec"@).len() > 0);
    assert(("decimal"@).len() > 0);
    assert(("dezimal"@).len() > 0);
    assert(("elif"@).len() > 0);
    assert(("else"@).len() > 0);
    assert(("else if"@).len() > 0);
    assert(("en"@).len() > 0);
    assert(("es"@).len() > 0);
    assert(("farmfunction"@).len() > 0);
    assert(("float"@).len() > 0);
    assert(("for"@).len() > 0);
    assert(("funciongranja"@).len() > 0);
    assert(("function"@).len() > 0);
    assert(("für"@).len() > 0);
    assert(("granero"@).len() > 0);
    assert(("granja"@).len() > 0);
    assert(("if"@).len() > 0);
    assert(("in"@).len() > 0);
    assert(("int"@).len() > 0);
    assert(("is"@).len() > 0);
    assert(("is not"@).len() > 0);
    assert(("ist"@).len() > 0);
    assert(("ist nicht"@).len() > 0);
    assert(("map"@).len() > 0);
    assert(("mapa_establo"@).len() > 0);
    assert(("mientras"@).len() > 0);
    assert(("moo"@).len() > 0);
    assert(("muh"@).len() > 0);
    assert(("muuu"@).len() > 0);
    assert(("no es"@).len() > 0);
    assert(("num"@).len() > 0);
    assert(("numero"@).len() > 0);
    assert(("nummer"@).len() > 0);
    assert(("para"@).len() > 0);
    assert(("print"@).len() > 0);
    assert(("range"@).len() > 0);
    assert(("regresa"@).len() > 0);
    assert(("return"@).len() > 0);
    assert(("scheune"@).len() > 0);
    assert(("si"@).len() > 0);
    assert(("sino"@).len() > 0);
    assert(("sino si"@).len() > 0);
    assert(("sonst"@).len() > 0);
    assert(("sonst wenn"@).len() > 0);
    assert(("stall"@).len() > 0);
    assert(("stall_karte"@).len() > 0);
    assert(("string"@).len() > 0);
    assert(("text"@).len() > 0);
    assert(("texto"@).len() > 0);
    assert(("wenn"@).len() > 0);
    assert(("while"@).len() > 0);
    assert(("während"@).len() > 0);
    assert(("zurück"@).len() > 0);
    assert(("в"@).len() > 0);
    assert(("вернуть"@).len() > 0);
    assert(("для"@).len() > 0);
    assert(("дробь"@).len() > 0);
    assert(("если"@).len() > 0);
    assert(("есть"@).len() > 0);
    assert(("загон"@).len() > 0);
    assert(("иначе"@).len() > 0);
    assert(("иначе если"@).len() > 0);
    assert(("карта_сарая"@).len() > 0);
    assert(("логический"@).len() > 0);
    assert(("му"@).len() > 0);
    assert(("не есть"@).len() > 0);
    assert(("пока"@).len() > 0);
    assert(("сарай"@).len() > 0);
    assert(("текст"@).len() > 0);
    assert(("фермафункция"@).len() > 0);
    assert(("число"@).len() > 0);
    lemma_spelling_links(default_set_view(lang));
}

/// Unknown-locale synthesis: a merge gives every locale the partial
/// brings — known to the built-in table or not — a keyword set, namely
/// its fallback set merged with its overrides.
pub proof fn lemma_unknown_locale_synthesis(p: PartialMooConfig, lang: Seq<char>)
    requires
        p.wf(),
        match p.keywords {
            Some(entries) => exists|i: int|
                0 <= i < entries@.len() && #[trigger] entries@[i].0@ == lang,
            None => false,
        },
    ensures
        merged_config_view(p).keywords.dom().contains(lang),
        match p.keywords {
            Some(entries) => forall|i: int|
                0 <= i < entries@.len() && #[trigger] entries@[i].0@ == lang ==> merged_config_view(
                    p,
                ).keywords[lang] == merge_entry_view(lang, entries@[i].1@),
            None => false,
        },
{
    match p.keywords {
        Some(entries) => {
            assert(entries@.len() > 0);
            lemma_assoc_view_dom(entries@, merge_value_view(), lang);
            assert forall|i: int|
                0 <= i < entries@.len() && #[trigger] entries@[i].0@ == lang implies merged_config_view(
                p,
            ).keywords[lang] == merge_entry_view(lang, entries@[i].1@) by {
                assert(unique_keys(entries@));
                lemma_assoc_view_index(entries@, merge_value_view(), i);
            }
        },
        None => {},
    }
}

/// Duplicate-spelling resolution: a spelling's binding in a reverse map
/// is the category of the last role in the fixed order that carries it,
/// so where two roles share one spelling, the role laid down later wins,
/// deterministically.
#[verifier::rlimit(100)]
pub proof fn lemma_reverse_map_binding(k: KwView, lang: Seq<char>, j: int)
    requires
        0 <= j < 18,
        forall|j2: int| j < j2 < 18 ==> #[trigger] spellings_of(k)[j2] != spellings_of(k)[j],
    ensures
        reverse_map_view(k, lang).dom().contains(spellings_of(k)[j]),
        reverse_map_view(k, lang)[spellings_of(k)[j]] == role_token_view(j, lang),
{
    lemma_spelling_links(k);
}

/// Reverse-map completeness: with pairwise distinct spellings, a locale's
/// reverse map binds each of the 18 spellings and nothing else — 18
/// distinct entries in all.
pub proof fn lemma_reverse_map_complete(k: KwView, lang: Seq<char>)
    requires
        kw_spellings_distinct(k),
    ensures
        reverse_map_view(k, lang).dom().len() == 18,
        forall|i: int|
            0 <= i < 18 ==> reverse_map_view(k, lang).dom().contains(
                #[trigger] spellings_of(k)[i],
            ),
{
    lemma_spelling_links(k);
    let d = reverse_map_view(k, lang).dom();
    let s0 = Set::<Seq<char>>::empty().insert(k.print);
    assert(s0.len() == 1);
    let s1 = s0.insert(k.text_type);
    assert(s1.len() == 2);
    let s2 = s1.insert(k.number_type);
    assert(s2.len() == 3);
    let s3 = s2.insert(k.decimal_type);
    assert(s3.len() == 4);
    let s4 = s3.insert(k.boolean_type);
    assert(s4.len() == 5);
    let s5 = s4.insert(k.array_type);
    assert(s5.len() == 6);
    let s6 = s5.insert(k.map_type);
    assert(s6.len() == 7);
    let s7 = s6.insert(k.if_keyword);
    assert(s7.len() == 8);
    let s8 = s7.insert(k.else_if_keyword);
    assert(s8.len() == 9);
    let s9 = s8.insert(k.else_keyword);
    assert(s9.len() == 10);
    let s10 = s9.insert(k.while_keyword);
    assert(s10.len() == 11);
    let s11 = s10.insert(k.for_keyword);
    assert(s11.len() == 12);
    let s12 = s11.insert(k.in_keyword);
    assert(s12.len() == 13);
    let s13 = s12.insert(k.function_keyword);
    assert(s13.len() == 14);
    let s14 = s13.insert(k.return_keyword);
    assert(s14.len() == 15);
    let s15 = s14.insert(k.is_keyword);
    assert(s15.len() == 16);
    let s16 = s15.insert(k.is_not_keyword);
    assert(s16.len() == 17);
    let s17 = s16.insert(k.range_keyword);
    assert(s17.len() == 18);
    assert(d =~= s17);
    assert(d.len() == 18);
}

/// The built-in English and Spanish reverse maps each carry exactly 18
/// distinct entries, under any locale identity.
pub proof fn lemma_default_reverse_maps_complete(lang: Seq<char>)
    ensures
        reverse_map_view(en_default_view(), lang).dom().len() == 18,
        reverse_map_view(es_default_view(), lang).dom().len() == 18,
{
    lemma_en_defaults_distinct();
    lemma_es_defaults_distinct();
    lemma_reverse_map_complete(en_default_view(), lang);
    lemma_reverse_map_complete(es_default_view(), lang);
}

} // verus!
