//! Language definitions: keyword sets per locale, built-in defaults, and
//! the merge of user-supplied partial definitions with those defaults.
//!
//! A complete definition (`MooConfig`) maps each locale to a `KeyWordSet`
//! giving the locale's spelling for each of the 18 keyword roles. A
//! partial definition (`PartialMooConfig`) is the wire format of an
//! override file: every field optional, consumed once by the merge.

use vstd::prelude::*;
use vstd::string::StringExecFns;
use crate::assoc::{
    assoc_get, assoc_view, unique_keys, lemma_assoc_view_push, lemma_assoc_view_dom,
    lemma_assoc_view_parallel,
};
use crate::config_errors::ConfigError;
use crate::str_eq;

verus! {

// ================================
// Keyword sets and their views
// ================================

/// One locale's complete keyword set: a spelling for each of the 18 roles.
#[derive(Debug, Clone)]
pub struct KeyWordSet {
    // Output
    pub print: String,
    // Data types
    pub text_type: String,
    pub number_type: String,
    pub decimal_type: String,
    pub boolean_type: String,
    pub array_type: String,
    pub map_type: String,
    // Control flow
    pub if_keyword: String,
    pub else_if_keyword: String,
    pub else_keyword: String,
    pub while_keyword: String,
    pub for_keyword: String,
    pub in_keyword: String,
    // Functions
    pub function_keyword: String,
    pub return_keyword: String,
    // Comparison
    pub is_keyword: String,
    pub is_not_keyword: String,
    // Special
    pub range_keyword: String,
}

/// The mathematical content of a `KeyWordSet`: one character sequence per
/// role.
#[verifier::ext_equal]
pub ghost struct KwView {
    pub print: Seq<char>,
    pub text_type: Seq<char>,
    pub number_type: Seq<char>,
    pub decimal_type: Seq<char>,
    pub boolean_type: Seq<char>,
    pub array_type: Seq<char>,
    pub map_type: Seq<char>,
    pub if_keyword: Seq<char>,
    pub else_if_keyword: Seq<char>,
    pub else_keyword: Seq<char>,
    pub while_keyword: Seq<char>,
    pub for_keyword: Seq<char>,
    pub in_keyword: Seq<char>,
    pub function_keyword: Seq<char>,
    pub return_keyword: Seq<char>,
    pub is_keyword: Seq<char>,
    pub is_not_keyword: Seq<char>,
    pub range_keyword: Seq<char>,
}

impl View for KeyWordSet {
    type V = KwView;

    open spec fn view(&self) -> KwView {
        KwView {
            print: self.print@,
            text_type: self.text_type@,
            number_type: self.number_type@,
            decimal_type: self.decimal_type@,
            boolean_type: self.boolean_type@,
            array_type: self.array_type@,
            map_type: self.map_type@,
            if_keyword: self.if_keyword@,
            else_if_keyword: self.else_if_keyword@,
            else_keyword: self.else_keyword@,
            while_keyword: self.while_keyword@,
            for_keyword: self.for_keyword@,
            in_keyword: self.in_keyword@,
            function_keyword: self.function_keyword@,
            return_keyword: self.return_keyword@,
            is_keyword: self.is_keyword@,
            is_not_keyword: self.is_not_keyword@,
            range_keyword: self.range_keyword@,
        }
    }
}

/// The 18 spellings of a keyword set, in the fixed role order used when a
/// reverse map is built.
pub open spec fn spellings_of(k: KwView) -> Seq<Seq<char>> {
    seq![
        k.print,
        k.text_type,
        k.number_type,
        k.decimal_type,
        k.boolean_type,
        k.array_type,
        k.map_type,
        k.if_keyword,
        k.else_if_keyword,
        k.else_keyword,
        k.while_keyword,
        k.for_keyword,
        k.in_keyword,
        k.function_keyword,
        k.return_keyword,
        k.is_keyword,
        k.is_not_keyword,
        k.range_keyword,
    ]
}

/// Every role's spelling is non-empty.
pub open spec fn kw_all_roles_nonempty(k: KwView) -> bool {
    forall|i: int| 0 <= i < 18 ==> #[trigger] spellings_of(k)[i].len() > 0
}

/// No two roles of the set share a spelling.
pub open spec fn kw_spellings_distinct(k: KwView) -> bool {
    forall|i: int, j: int|
        0 <= i < j < 18 ==> #[trigger] spellings_of(k)[i] != #[trigger] spellings_of(k)[j]
}

/// An optional-field mirror of `KeyWordSet`: the deserialization target
/// for override files, consumed by the merge.
#[derive(Debug)]
pub struct PartialKeyWordSet {
    pub print: Option<String>,
    pub text_type: Option<String>,
    pub number_type: Option<String>,
    pub decimal_type: Option<String>,
    pub boolean_type: Option<String>,
    pub array_type: Option<String>,
    pub map_type: Option<String>,
    pub if_keyword: Option<String>,
    pub else_if_keyword: Option<String>,
    pub else_keyword: Option<String>,
    pub while_keyword: Option<String>,
    pub for_keyword: Option<String>,
    pub in_keyword: Option<String>,
    pub function_keyword: Option<String>,
    pub return_keyword: Option<String>,
    pub is_keyword: Option<String>,
    pub is_not_keyword: Option<String>,
    pub range_keyword: Option<String>,
}

/// The view of an optional spelling.
pub open spec fn opt_view(o: Option<String>) -> Option<Seq<char>> {
    match o {
        Some(s) => Some(s@),
        None => None,
    }
}

/// The mathematical content of a `PartialKeyWordSet`.
#[verifier::ext_equal]
pub ghost struct PartialKwView {
    pub print: Option<Seq<char>>,
    pub text_type: Option<Seq<char>>,
    pub number_type: Option<Seq<char>>,
    pub decimal_type: Option<Seq<char>>,
    pub boolean_type: Option<Seq<char>>,
    pub array_type: Option<Seq<char>>,
    pub map_type: Option<Seq<char>>,
    pub if_keyword: Option<Seq<char>>,
    pub else_if_keyword: Option<Seq<char>>,
    pub else_keyword: Option<Seq<char>>,
    pub while_keyword: Option<Seq<char>>,
    pub for_keyword: Option<Seq<char>>,
    pub in_keyword: Option<Seq<char>>,
    pub function_keyword: Option<Seq<char>>,
    pub return_keyword: Option<Seq<char>>,
    pub is_keyword: Option<Seq<char>>,
    pub is_not_keyword: Option<Seq<char>>,
    pub range_keyword: Option<Seq<char>>,
}

impl View for PartialKeyWordSet {
    type V = PartialKwView;

    open spec fn view(&self) -> PartialKwView {
        PartialKwView {
            print: opt_view(self.print),
            text_type: opt_view(self.text_type),
            number_type: opt_view(self.number_type),
            decimal_type: opt_view(self.decimal_type),
            boolean_type: opt_view(self.boolean_type),
            array_type: opt_view(self.array_type),
            map_type: opt_view(self.map_type),
            if_keyword: opt_view(self.if_keyword),
            else_if_keyword: opt_view(self.else_if_keyword),
            else_keyword: opt_view(self.else_keyword),
            while_keyword: opt_view(self.while_keyword),
            for_keyword: opt_view(self.for_keyword),
            in_keyword: opt_view(self.in_keyword),
            function_keyword: opt_view(self.function_keyword),
            return_keyword: opt_view(self.return_keyword),
            is_keyword: opt_view(self.is_keyword),
            is_not_keyword: opt_view(self.is_not_keyword),
            range_keyword: opt_view(self.range_keyword),
        }
    }
}

/// The optional fields of a partial set, in role order.
pub open spec fn partial_fields_of(p: PartialKwView) -> Seq<Option<Seq<char>>> {
    seq![
        p.print,
        p.text_type,
        p.number_type,
        p.decimal_type,
        p.boolean_type,
        p.array_type,
        p.map_type,
        p.if_keyword,
        p.else_if_keyword,
        p.else_keyword,
        p.while_keyword,
        p.for_keyword,
        p.in_keyword,
        p.function_keyword,
        p.return_keyword,
        p.is_keyword,
        p.is_not_keyword,
        p.range_keyword,
    ]
}

/// Every field of the partial set is present.
pub open spec fn partial_all_set(p: PartialKwView) -> bool {
    forall|i: int| 0 <= i < 18 ==> #[trigger] partial_fields_of(p)[i] is Some
}

/// Every field of the partial set that is present is non-empty.
pub open spec fn partial_set_fields_nonempty(p: PartialKwView) -> bool {
    forall|i: int|
        0 <= i < 18 && #[trigger] partial_fields_of(p)[i] is Some
            ==> partial_fields_of(p)[i].unwrap().len() > 0
}

// ================================
// Settings and whole definitions
// ================================

/// Global settings of a language definition.
#[derive(Debug, Clone)]
pub struct LanguageSettings {
    pub version: String,
    pub default_language: String,
}

/// The mathematical content of `LanguageSettings`.
#[verifier::ext_equal]
pub ghost struct LanguageSettingsView {
    pub version: Seq<char>,
    pub default_language: Seq<char>,
}

impl View for LanguageSettings {
    type V = LanguageSettingsView;

    open spec fn view(&self) -> LanguageSettingsView {
        LanguageSettingsView {
            version: self.version@,
            default_language: self.default_language@,
        }
    }
}

/// An optional-field mirror of `LanguageSettings`: each global setting
/// may be supplied or omitted on its own, and falls back on its own.
#[derive(Debug)]
pub struct PartialLanguageSettings {
    pub version: Option<String>,
    pub default_language: Option<String>,
}

/// The mathematical content of `PartialLanguageSettings`.
#[verifier::ext_equal]
pub ghost struct PartialLanguageSettingsView {
    pub version: Option<Seq<char>>,
    pub default_language: Option<Seq<char>>,
}

impl View for PartialLanguageSettings {
    type V = PartialLanguageSettingsView;

    open spec fn view(&self) -> PartialLanguageSettingsView {
        PartialLanguageSettingsView {
            version: opt_view(self.version),
            default_language: opt_view(self.default_language),
        }
    }
}

/// The global settings a partial definition supplies, flattened: an
/// absent settings table supplies neither field.
pub open spec fn partial_settings_view(
    o: Option<PartialLanguageSettings>,
) -> PartialLanguageSettingsView {
    match o {
        Some(l) => l@,
        None => PartialLanguageSettingsView { version: None, default_language: None },
    }
}

/// A complete language definition: global settings plus one keyword set
/// per locale. The locale table is an association list whose meaning is a
/// map from locale identifier to keyword set.
#[derive(Debug, Clone)]
pub struct MooConfig {
    pub language: LanguageSettings,
    pub keywords: Vec<(String, KeyWordSet)>,
}

/// The mathematical content of a `MooConfig`.
#[verifier::ext_equal]
pub ghost struct ConfigView {
    pub version: Seq<char>,
    pub default_language: Seq<char>,
    pub keywords: Map<Seq<char>, KwView>,
}

/// The interpretation of a locale entry of a complete definition: the
/// keyword set's view.
pub open spec fn kw_value_view() -> spec_fn(Seq<char>, KeyWordSet) -> KwView {
    |k: Seq<char>, v: KeyWordSet| v@
}

impl View for MooConfig {
    type V = ConfigView;

    open spec fn view(&self) -> ConfigView {
        ConfigView {
            version: self.language.version@,
            default_language: self.language.default_language@,
            keywords: assoc_view(self.keywords@, kw_value_view()),
        }
    }
}

impl MooConfig {
    /// The locale table is a proper mapping: no locale listed twice.
    pub open spec fn wf(&self) -> bool {
        unique_keys(self.keywords@)
    }
}

/// An optional-field mirror of `MooConfig`: the deserialization target for
/// override files, consumed by the merge.
#[derive(Debug)]
pub struct PartialMooConfig {
    pub language: Option<PartialLanguageSettings>,
    pub keywords: Option<Vec<(String, PartialKeyWordSet)>>,
}

impl PartialMooConfig {
    /// The locale table, if present, is a proper mapping: no locale listed
    /// twice.
    pub open spec fn wf(&self) -> bool {
        match self.keywords {
            Some(entries) => unique_keys(entries@),
            None => true,
        }
    }
}

// ================================
// Built-in defaults
// ================================

/// The built-in English keyword set.
pub open spec fn en_default_view() -> KwView {
    KwView {
        print: "moo"@,
        text_type: "text"@,
        number_type: "num"@,
        decimal_type: "dec"@,
        boolean_type: "boolean"@,
        array_type: "coop"@,
        map_type: "barn_map"@,
        if_keyword: "if"@,
        else_if_keyword: "else if"@,
        else_keyword: "else"@,
        while_keyword: "while"@,
        for_keyword: "for"@,
        in_keyword: "in"@,
        function_keyword: "farmfunction"@,
        return_keyword: "return"@,
        is_keyword: "is"@,
        is_not_keyword: "is not"@,
        range_keyword: "barn"@,
    }
}

/// The built-in Spanish keyword set.
pub open spec fn es_default_view() -> KwView {
    KwView {
        print: "muuu"@,
        text_type: "texto"@,
        number_type: "numero"@,
        decimal_type: "decimal"@,
        boolean_type: "booleano"@,
        array_type: "granja"@,
        map_type: "mapa_establo"@,
        if_keyword: "si"@,
        else_if_keyword: "sino si"@,
        else_keyword: "sino"@,
        while_keyword: "mientras"@,
        for_keyword: "para"@,
        in_keyword: "en"@,
        function_keyword: "funciongranja"@,
        return_keyword: "regresa"@,
        is_keyword: "es"@,
        is_not_keyword: "no es"@,
        range_keyword: "granero"@,
    }
}

/// The synthesized German keyword set, shipped for overrides of a locale
/// the built-in table does not know.
pub open spec fn de_default_view() -> KwView {
    KwView {
        print: "muh"@,
        text_type: "text"@,
        number_type: "nummer"@,
        decimal_type: "dezimal"@,
        boolean_type: "boolesch"@,
        array_type: "stall"@,
        map_type: "stall_karte"@,
        if_keyword: "wenn"@,
        else_if_keyword: "sonst wenn"@,
        else_keyword: "sonst"@,
        while_keyword: "während"@,
        for_keyword: "für"@,
        in_keyword: "in"@,
        function_keyword: "bauernfunktion"@,
        return_keyword: "zurück"@,
        is_keyword: "ist"@,
        is_not_keyword: "ist nicht"@,
        range_keyword: "scheune"@,
    }
}

/// The synthesized Russian keyword set.
pub open spec fn ru_default_view() -> KwView {
    KwView {
        print: "му"@,
        text_type: "текст"@,
        number_type: "число"@,
        decimal_type: "дробь"@,
        boolean_type: "логический"@,
        array_type: "загон"@,
        map_type: "карта_сарая"@,
        if_keyword: "если"@,
        else_if_keyword: "иначе если"@,
        else_keyword: "иначе"@,
        while_keyword: "пока"@,
        for_keyword: "для"@,
        in_keyword: "в"@,
        function_keyword: "фермафункция"@,
        return_keyword: "вернуть"@,
        is_keyword: "есть"@,
        is_not_keyword: "не есть"@,
        range_keyword: "сарай"@,
    }
}

/// The generic English-like keyword set, the fallback for any locale with
/// no table of its own.
pub open spec fn generic_default_view() -> KwView {
    KwView {
        print: "print"@,
        text_type: "string"@,
        number_type: "int"@,
        decimal_type: "float"@,
        boolean_type: "bool"@,
        array_type: "array"@,
        map_type: "map"@,
        if_keyword: "if"@,
        else_if_keyword: "elif"@,
        else_keyword: "else"@,
        while_keyword: "while"@,
        for_keyword: "for"@,
        in_keyword: "in"@,
        function_keyword: "function"@,
        return_keyword: "return"@,
        is_keyword: "=="@,
        is_not_keyword: "!="@,
        range_keyword: "range"@,
    }
}

/// The keyword set synthesized for a locale outside the built-in table.
pub open spec fn synthesized_default_view(lang: Seq<char>) -> KwView {
    if lang == "de"@ {
        de_default_view()
    } else if lang == "ru"@ {
        ru_default_view()
    } else {
        generic_default_view()
    }
}

/// The default keyword set any locale falls back to during a merge: the
/// built-in set for "en" and "es", a synthesized set otherwise.
pub open spec fn default_set_view(lang: Seq<char>) -> KwView {
    if lang == "en"@ {
        en_default_view()
    } else if lang == "es"@ {
        es_default_view()
    } else {
        synthesized_default_view(lang)
    }
}

/// The built-in locale table: "en" and "es", fully populated.
pub open spec fn default_keywords_view() -> Map<Seq<char>, KwView> {
    Map::empty().insert("en"@, en_default_view()).insert("es"@, es_default_view())
}

/// The whole built-in definition: version "1.0.0", default locale "en".
pub open spec fn default_config_view() -> ConfigView {
    ConfigView { version: "1.0.0"@, default_language: "en"@, keywords: default_keywords_view() }
}

/// Builds a keyword set from borrowed spellings, given in role order.
fn make_keyword_set(
    print: &str,
    text_type: &str,
    number_type: &str,
    decimal_type: &str,
    boolean_type: &str,
    array_type: &str,
    map_type: &str,
    if_keyword: &str,
    else_if_keyword: &str,
    else_keyword: &str,
    while_keyword: &str,
    for_keyword: &str,
    in_keyword: &str,
    function_keyword: &str,
    return_keyword: &str,
    is_keyword: &str,
    is_not_keyword: &str,
    range_keyword: &str,
) -> (r: KeyWordSet)
    ensures
        r@ == (KwView {
            print: print@,
            text_type: text_type@,
            number_type: number_type@,
            decimal_type: decimal_type@,
            boolean_type: boolean_type@,
            array_type: array_type@,
            map_type: map_type@,
            if_keyword: if_keyword@,
            else_if_keyword: else_if_keyword@,
            else_keyword: else_keyword@,
            while_keyword: while_keyword@,
            for_keyword: for_keyword@,
            in_keyword: in_keyword@,
            function_keyword: function_keyword@,
            return_keyword: return_keyword@,
            is_keyword: is_keyword@,
            is_not_keyword: is_not_keyword@,
            range_keyword: range_keyword@,
        }),
{
    let r = KeyWordSet {
        print: print.to_owned(),
        text_type: text_type.to_owned(),
        number_type: number_type.to_owned(),
        decimal_type: decimal_type.to_owned(),
        boolean_type: boolean_type.to_owned(),
        array_type: array_type.to_owned(),
        map_type: map_type.to_owned(),
        if_keyword: if_keyword.to_owned(),
        else_if_keyword: else_if_keyword.to_owned(),
        else_keyword: else_keyword.to_owned(),
        while_keyword: while_keyword.to_owned(),
        for_keyword: for_keyword.to_owned(),
        in_keyword: in_keyword.to_owned(),
        function_keyword: function_keyword.to_owned(),
        return_keyword: return_keyword.to_owned(),
        is_keyword: is_keyword.to_owned(),
        is_not_keyword: is_not_keyword.to_owned(),
        range_keyword: range_keyword.to_owned(),
    };
    proof {
        assert(r@ =~= (KwView {
            print: print@,
            text_type: text_type@,
            number_type: number_type@,
            decimal_type: decimal_type@,
            boolean_type: boolean_type@,
            array_type: array_type@,
            map_type: map_type@,
            if_keyword: if_keyword@,
            else_if_keyword: else_if_keyword@,
            else_keyword: else_keyword@,
            while_keyword: while_keyword@,
            for_keyword: for_keyword@,
            in_keyword: in_keyword@,
            function_keyword: function_keyword@,
            return_keyword: return_keyword@,
            is_keyword: is_keyword@,
            is_not_keyword: is_not_keyword@,
            range_keyword: range_keyword@,
        }));
    }
    r
}

/// Builds the built-in English keyword set.
fn default_en_set() -> (r: KeyWordSet)
    ensures
        r@ == en_default_view(),
{
    make_keyword_set(
        "moo",
        "text",
        "num",
        "dec",
        "boolean",
        "coop",
        "barn_map",
        "if",
        "else if",
        "else",
        "while",
        "for",
        "in",
        "farmfunction",
        "return",
        "is",
        "is not",
        "barn",
    )
}

/// Builds the built-in Spanish keyword set.
fn default_es_set() -> (r: KeyWordSet)
    ensures
        r@ == es_default_view(),
{
    make_keyword_set(
        "muuu",
        "texto",
        "numero",
        "decimal",
        "booleano",
        "granja",
        "mapa_establo",
        "si",
        "sino si",
        "sino",
        "mientras",
        "para",
        "en",
        "funciongranja",
        "regresa",
        "es",
        "no es",
        "granero",
    )
}

impl MooConfig {
    /// The keyword set synthesized for a locale the built-in table does
    /// not know: German and Russian ship with their own synthesized sets,
    /// any other locale gets the generic English-like fallback.
    pub fn get_generic_defaults_for_language(lang: &str) -> (r: KeyWordSet)
        ensures
            r@ == synthesized_default_view(lang@),
    {
        if str_eq(lang, "de") {
            make_keyword_set(
                "muh",
                "text",
                "nummer",
                "dezimal",
                "boolesch",
                "stall",
                "stall_karte",
                "wenn",
                "sonst wenn",
                "sonst",
                "während",
                "für",
                "in",
                "bauernfunktion",
                "zurück",
                "ist",
                "ist nicht",
                "scheune",
            )
        } else if str_eq(lang, "ru") {
            make_keyword_set(
                "му",
                "текст",
                "число",
                "дробь",
                "логический",
                "загон",
                "карта_сарая",
                "если",
                "иначе если",
                "иначе",
                "пока",
                "для",
                "в",
                "фермафункция",
                "вернуть",
                "есть",
                "не есть",
                "сарай",
            )
        } else {
            make_keyword_set(
                "print",
                "string",
                "int",
                "float",
                "bool",
                "array",
                "map",
                "if",
                "elif",
                "else",
                "while",
                "for",
                "in",
                "function",
                "return",
                "==",
                "!=",
                "range",
            )
        }
    }

    /// The default keyword set a locale falls back to during a merge.
    fn default_set_for(lang: &str) -> (r: KeyWordSet)
        ensures
            r@ == default_set_view(lang@),
    {
        if str_eq(lang, "en") {
            default_en_set()
        } else if str_eq(lang, "es") {
            default_es_set()
        } else {
            Self::get_generic_defaults_for_language(lang)
        }
    }

    /// The built-in default definition: locales "en" and "es" fully
    /// populated, version "1.0.0", default locale "en".
    pub fn from_default() -> (r: Self)
        ensures
            r@ == default_config_view(),
            r.wf(),
            r.keywords@.len() == 2,
            r.keywords@[0].0@ == "en"@,
            r.keywords@[1].0@ == "es"@,
    {
        let mut keywords: Vec<(String, KeyWordSet)> = Vec::new();
        let en = default_en_set();
        let es = default_es_set();
        let ghost f = kw_value_view();
        let ghost s0 = keywords@;
        keywords.push(("en".to_owned(), en));
        let ghost s1 = keywords@;
        keywords.push(("es".to_owned(), es));
        let ghost s2 = keywords@;
        let r = MooConfig {
            language: LanguageSettings {
                version: "1.0.0".to_owned(),
                default_language: "en".to_owned(),
            },
            keywords,
        };
        proof {
            reveal_strlit("en");
            reveal_strlit("es");
            assert("en"@[1] == 'n' && "es"@[1] == 's');
            assert("en"@ != "es"@);
            assert(s1 =~= s0.push(s1.last()));
            assert(s2 =~= s1.push(s2.last()));
            lemma_assoc_view_push(s0, f, s1.last());
            lemma_assoc_view_push(s1, f, s2.last());
            assert(assoc_view(s0, f) =~= Map::<Seq<char>, KwView>::empty());
            assert(r@.keywords =~= default_keywords_view());
            assert(r@ =~= default_config_view());
        }
        r
    }
}

// ================================
// Merging partial definitions
// ================================

/// Field-by-field merge: the partial's spelling where present, the
/// default's spelling otherwise.
pub open spec fn merge_kw_view(d: KwView, p: PartialKwView) -> KwView {
    KwView {
        print: merge_field(d.print, p.print),
        text_type: merge_field(d.text_type, p.text_type),
        number_type: merge_field(d.number_type, p.number_type),
        decimal_type: merge_field(d.decimal_type, p.decimal_type),
        boolean_type: merge_field(d.boolean_type, p.boolean_type),
        array_type: merge_field(d.array_type, p.array_type),
        map_type: merge_field(d.map_type, p.map_type),
        if_keyword: merge_field(d.if_keyword, p.if_keyword),
        else_if_keyword: merge_field(d.else_if_keyword, p.else_if_keyword),
        else_keyword: merge_field(d.else_keyword, p.else_keyword),
        while_keyword: merge_field(d.while_keyword, p.while_keyword),
        for_keyword: merge_field(d.for_keyword, p.for_keyword),
        in_keyword: merge_field(d.in_keyword, p.in_keyword),
        function_keyword: merge_field(d.function_keyword, p.function_keyword),
        return_keyword: merge_field(d.return_keyword, p.return_keyword),
        is_keyword: merge_field(d.is_keyword, p.is_keyword),
        is_not_keyword: merge_field(d.is_not_keyword, p.is_not_keyword),
        range_keyword: merge_field(d.range_keyword, p.range_keyword),
    }
}

/// One merged field: the override where present, the default otherwise.
pub open spec fn merge_field(d: Seq<char>, p: Option<Seq<char>>) -> Seq<char> {
    match p {
        Some(s) => s,
        None => d,
    }
}

/// The keyword set a merged definition carries for a locale: the locale's
/// overrides laid over the locale's default set.
pub open spec fn merge_entry_view(lang: Seq<char>, p: PartialKwView) -> KwView {
    merge_kw_view(default_set_view(lang), p)
}

/// The interpretation of a locale entry of a partial definition: what the
/// merge makes of it.
pub open spec fn merge_value_view() -> spec_fn(Seq<char>, PartialKeyWordSet) -> KwView {
    |k: Seq<char>, v: PartialKeyWordSet| merge_entry_view(k, v@)
}

/// The locale table a merge produces: each locale of the partial merged
/// with its defaults; the full built-in table where the partial brings no
/// locale at all.
pub open spec fn merged_keywords_view(
    pk: Option<Seq<(String, PartialKeyWordSet)>>,
) -> Map<Seq<char>, KwView> {
    match pk {
        None => default_keywords_view(),
        Some(entries) => if entries.len() == 0 {
            default_keywords_view()
        } else {
            assoc_view(entries, merge_value_view())
        },
    }
}

/// The keyword table of the partial definition, as a sequence.
pub open spec fn partial_keywords_seq(
    p: PartialMooConfig,
) -> Option<Seq<(String, PartialKeyWordSet)>> {
    match p.keywords {
        Some(entries) => Some(entries@),
        None => None,
    }
}

/// The whole definition a merge produces from a partial one.
pub open spec fn merged_config_view(p: PartialMooConfig) -> ConfigView {
    ConfigView {
        version: merge_field("1.0.0"@, partial_settings_view(p.language).version),
        default_language: merge_field("en"@, partial_settings_view(p.language).default_language),
        keywords: merged_keywords_view(partial_keywords_seq(p)),
    }
}

impl MooConfig {
    /// Merges one locale's keyword set: each role's spelling is the
    /// partial's value where present, the default's value otherwise, so no
    /// role is ever left without a spelling. A present override is
    /// honored verbatim, an explicitly empty one included.
    pub fn merge_keyword_sets(default: KeyWordSet, partial: PartialKeyWordSet) -> (r: KeyWordSet)
        ensures
            r@ == merge_kw_view(default@, partial@),
    {
        let r = KeyWordSet {
            print: partial.print.unwrap_or(default.print),
            text_type: partial.text_type.unwrap_or(default.text_type),
            number_type: partial.number_type.unwrap_or(default.number_type),
            decimal_type: partial.decimal_type.unwrap_or(default.decimal_type),
            boolean_type: partial.boolean_type.unwrap_or(default.boolean_type),
            array_type: partial.array_type.unwrap_or(default.array_type),
            map_type: partial.map_type.unwrap_or(default.map_type),
            if_keyword: partial.if_keyword.unwrap_or(default.if_keyword),
            else_if_keyword: partial.else_if_keyword.unwrap_or(default.else_if_keyword),
            else_keyword: partial.else_keyword.unwrap_or(default.else_keyword),
            while_keyword: partial.while_keyword.unwrap_or(default.while_keyword),
            for_keyword: partial.for_keyword.unwrap_or(default.for_keyword),
            in_keyword: partial.in_keyword.unwrap_or(default.in_keyword),
            function_keyword: partial.function_keyword.unwrap_or(default.function_keyword),
            return_keyword: partial.return_keyword.unwrap_or(default.return_keyword),
            is_keyword: partial.is_keyword.unwrap_or(default.is_keyword),
            is_not_keyword: partial.is_not_keyword.unwrap_or(default.is_not_keyword),
            range_keyword: partial.range_keyword.unwrap_or(default.range_keyword),
        };
        proof {
            assert(r@ =~= merge_kw_view(default@, partial@));
        }
        r
    }

    /// Merges a partial definition with the built-in defaults into a
    /// complete one. Global settings fall back field by field to version
    /// "1.0.0" and default locale "en"; each locale of the partial is
    /// merged with that locale's default set; and a partial bringing no
    /// locale at all gets the whole built-in table.
    pub fn merge_with_defaults(partial: PartialMooConfig) -> (r: Self)
        requires
            partial.wf(),
        ensures
            r@ == merged_config_view(partial),
            r.wf(),
            match partial.keywords {
                Some(entries) => entries@.len() > 0 ==> r.keywords@.len() == entries@.len()
                    && (forall|i: int|
                    0 <= i < entries@.len() ==> #[trigger] r.keywords@[i].0@ == entries@[i].0@),
                None => true,
            },
    {
        let language = match partial.language {
            Some(l) => LanguageSettings {
                version: l.version.unwrap_or("1.0.0".to_owned()),
                default_language: l.default_language.unwrap_or("en".to_owned()),
            },
            None => LanguageSettings {
                version: "1.0.0".to_owned(),
                default_language: "en".to_owned(),
            },
        };
        let mut keywords: Vec<(String, KeyWordSet)> = Vec::new();
        let ghost mergef = merge_value_view();
        let ghost kwf = kw_value_view();
        match partial.keywords {
            Some(mut entries) => {
                let ghost orig = entries@;
                while entries.len() > 0
                    invariant
                        entries@ =~= orig.skip(keywords@.len() as int),
                        keywords@.len() <= orig.len(),
                        forall|i: int|
                            0 <= i < keywords@.len() ==> #[trigger] keywords@[i].0@ == orig[i].0@
                                && keywords@[i].1@ == merge_entry_view(orig[i].0@, orig[i].1@),
                    decreases entries@.len(),
                {
                    let ghost n = keywords@.len() as int;
                    let (lang_name, pset) = entries.remove(0);
                    proof {
                        assert(orig.skip(n)[0] == orig[n]);
                        assert(orig.skip(n).remove(0) =~= orig.skip(n + 1));
                    }
                    let default_ks = Self::default_set_for(lang_name.as_str());
                    let merged = Self::merge_keyword_sets(default_ks, pset);
                    keywords.push((lang_name, merged));
                }
                proof {
                    assert(keywords@.len() == orig.len());
                    if orig.len() > 0 {
                        lemma_assoc_view_parallel(keywords@, orig, kwf, mergef);
                    }
                    assert(unique_keys(orig));
                    assert forall|i: int, j: int|
                        0 <= i < j < keywords@.len() implies #[trigger] keywords@[i].0@
                        != #[trigger] keywords@[j].0@ by {
                        assert(orig[i].0@ != orig[j].0@);
                    }
                }
            },
            None => {},
        }
        if keywords.len() == 0 {
            let defaults = Self::from_default();
            keywords = defaults.keywords;
        }
        let r = MooConfig { language, keywords };
        proof {
            assert(r@.keywords =~= merged_config_view(partial).keywords);
            assert(r@ =~= merged_config_view(partial));
            assert(r.wf());
        }
        r
    }
}

// ================================
// Loading policy and utilities
// ================================

impl MooConfig {
    /// Turns the outcome of reading and deserializing a configuration
    /// source into a complete definition: a parsed partial is merged with
    /// the defaults, an absent source falls back to the whole built-in
    /// definition, and any other failure is passed on.
    pub fn load_with_defaults(parsed: Result<PartialMooConfig, ConfigError>) -> (r: Result<
        Self,
        ConfigError,
    >)
        requires
            match parsed {
                Ok(p) => p.wf(),
                Err(_) => true,
            },
        ensures
            match parsed {
                Ok(p) => match r {
                    Ok(c) => c@ == merged_config_view(p) && c.wf(),
                    Err(_) => false,
                },
                Err(e) => match e {
                    ConfigError::FileNotFoundError(_) => match r {
                        Ok(c) => c@ == default_config_view() && c.wf(),
                        Err(_) => false,
                    },
                    _ => r == Err::<MooConfig, ConfigError>(e),
                },
            },
    {
        match parsed {
            Ok(partial_config) => Ok(Self::merge_with_defaults(partial_config)),
            Err(ConfigError::FileNotFoundError(_)) => Ok(Self::from_default()),
            Err(err) => Err(err),
        }
    }

    /// Like `load_with_defaults`, but never fails: where that reports an
    /// error, this falls back to the built-in definition as well.
    pub fn load_smart(parsed: Result<PartialMooConfig, ConfigError>) -> (r: Self)
        requires
            match parsed {
                Ok(p) => p.wf(),
                Err(_) => true,
            },
        ensures
            r@ == (match parsed {
                Ok(p) => merged_config_view(p),
                Err(_) => default_config_view(),
            }),
            r.wf(),
    {
        match Self::load_with_defaults(parsed) {
            Ok(config) => config,
            Err(_) => Self::from_default(),
        }
    }

    /// The keyword set of one locale, if the definition has that locale.
    pub fn get_keyword_set<'a>(&'a self, language: &str) -> (r: Option<&'a KeyWordSet>)
        ensures
            match r {
                Some(ks) => self@.keywords.dom().contains(language@) && self@.keywords[language@]
                    == ks@,
                None => !self@.keywords.dom().contains(language@),
            },
    {
        assoc_get::<KeyWordSet, KwView>(&self.keywords, language, Ghost(kw_value_view()))
    }

    /// The locale identifiers of the definition, in table order.
    pub fn get_available_languages(&self) -> (r: Vec<String>)
        ensures
            r@.len() == self.keywords@.len(),
            forall|i: int| 0 <= i < r@.len() ==> #[trigger] r@[i]@ == self.keywords@[i].0@,
            forall|l: Seq<char>|
                self@.keywords.dom().contains(l) <==> (exists|i: int|
                    0 <= i < r@.len() && #[trigger] r@[i]@ == l),
    {
        let mut out: Vec<String> = Vec::new();
        let mut i: usize = 0;
        while i < self.keywords.len()
            invariant
                i <= self.keywords@.len(),
                out@.len() == i,
                forall|j: int| 0 <= j < i ==> #[trigger] out@[j]@ == self.keywords@[j].0@,
            decreases self.keywords@.len() - i,
        {
            out.push(self.keywords[i].0.clone());
            i = i + 1;
        }
        proof {
            assert forall|l: Seq<char>|
                self@.keywords.dom().contains(l) <==> (exists|i: int|
                    0 <= i < out@.len() && #[trigger] out@[i]@ == l) by {
                lemma_assoc_view_dom(self.keywords@, kw_value_view(), l);
                if self@.keywords.dom().contains(l) {
                    let i = choose|i: int|
                        0 <= i < self.keywords@.len() && #[trigger] self.keywords@[i].0@ == l;
                    assert(out@[i]@ == l);
                }
            }
        }
        out
    }

    /// A one-line description of the definition's global settings.
    pub fn message(&self) -> (r: String)
        ensures
            r@ == "MooConfig { version: "@ + self@.version + ", default_language: "@
                + self@.default_language + " }"@,
    {
        let mut s = "MooConfig { version: ".to_owned();
        s.append(self.language.version.as_str());
        s.append(", default_language: ");
        s.append(self.language.default_language.as_str());
        s.append(" }");
        proof {
            assert(s@ =~= "MooConfig { version: "@ + self@.version + ", default_language: "@
                + self@.default_language + " }"@);
        }
        s
    }

    /// How many keywords one locale contributes: the 18 roles where the
    /// locale is known, none where it is not.
    pub fn keyword_count(&self, language: &str) -> (r: usize)
        ensures
            r == (if self@.keywords.dom().contains(language@) {
                18int
            } else {
                0int
            }),
    {
        if self.get_keyword_set(language).is_some() {
            18
        } else {
            0
        }
    }

    /// How many keywords the whole definition carries: 18 per locale
    /// listed in its table.
    pub fn total_keywords(&self) -> (r: usize)
        requires
            self.keywords@.len() * 18 <= usize::MAX,
        ensures
            r == self.keywords@.len() * 18,
    {
        self.keywords.len() * 18
    }
}

} // verus!
