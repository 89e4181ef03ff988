//! The keyword resolver: per-locale reverse maps from surface spelling to
//! lexical category, with locale-specific category identities.
//!
//! Built once from a complete definition, the resolver answers, for a word
//! and a locale, which category the word activates in that locale — and
//! nothing across locales: a word that is a keyword in one locale does not
//! resolve in another unless registered there too.

use vstd::prelude::*;
use crate::assoc::{
    assoc_get, assoc_push, assoc_view, map_get, lemma_assoc_view_dom, lemma_assoc_view_index,
    lemma_assoc_view_factor, lemma_assoc_view_parallel, lemma_assoc_view_len,
};
use crate::config_errors::ConfigError;
use crate::language_config::{
    ConfigView, KeyWordSet, KwView, MooConfig, PartialMooConfig, default_config_view,
    kw_value_view, merged_config_view,
};
use crate::str_eq;
use crate::tokens::TokenType;

verus! {

// ================================
// Locale-specific category identities
// ================================

/// The category the print role activates in a locale.
pub open spec fn print_token_view(lang: Seq<char>) -> TokenType {
    if lang == "es"@ {
        TokenType::Muuu
    } else {
        TokenType::Moo
    }
}

/// The category the array-type role activates in a locale.
pub open spec fn array_token_view(lang: Seq<char>) -> TokenType {
    if lang == "es"@ {
        TokenType::Granja
    } else {
        TokenType::Coop
    }
}

/// The category the map-type role activates in a locale.
pub open spec fn map_token_view(lang: Seq<char>) -> TokenType {
    if lang == "es"@ {
        TokenType::MapaEstablo
    } else {
        TokenType::BarnMap
    }
}

/// The category the else-if role activates in a locale.
pub open spec fn else_if_token_view(lang: Seq<char>) -> TokenType {
    if lang == "es"@ {
        TokenType::SinoSi
    } else {
        TokenType::ElseIf
    }
}

/// The category the while role activates in a locale.
pub open spec fn while_token_view(lang: Seq<char>) -> TokenType {
    if lang == "es"@ {
        TokenType::Mientras
    } else {
        TokenType::While
    }
}

/// The category the for role activates in a locale.
pub open spec fn for_token_view(lang: Seq<char>) -> TokenType {
    if lang == "es"@ {
        TokenType::Para
    } else {
        TokenType::For
    }
}

/// The category the in role activates in a locale.
pub open spec fn in_token_view(lang: Seq<char>) -> TokenType {
    if lang == "es"@ {
        TokenType::En
    } else {
        TokenType::In
    }
}

/// The category the function role activates in a locale.
pub open spec fn function_token_view(lang: Seq<char>) -> TokenType {
    if lang == "es"@ {
        TokenType::Funciongranja
    } else {
        TokenType::Farmfunction
    }
}

/// The category the return role activates in a locale.
pub open spec fn return_token_view(lang: Seq<char>) -> TokenType {
    if lang == "es"@ {
        TokenType::Regresa
    } else {
        TokenType::Return
    }
}

/// The category the is role activates in a locale.
pub open spec fn is_token_view(lang: Seq<char>) -> TokenType {
    if lang == "es"@ {
        TokenType::Es
    } else {
        TokenType::Is
    }
}

/// The category the is-not role activates in a locale.
pub open spec fn is_not_token_view(lang: Seq<char>) -> TokenType {
    if lang == "es"@ {
        TokenType::NoEs
    } else {
        TokenType::IsNot
    }
}

/// The category the range role activates in a locale.
pub open spec fn range_token_view(lang: Seq<char>) -> TokenType {
    if lang == "es"@ {
        TokenType::Granero
    } else {
        TokenType::Barn
    }
}

/// The category identity of the role at position `i` of the fixed role
/// order (print, text, number, decimal, boolean, array, map, if, else-if,
/// else, while, for, in, function, return, is, is-not, range), in a
/// locale.
pub open spec fn role_token_view(i: int, lang: Seq<char>) -> TokenType {
    if i == 0 {
        print_token_view(lang)
    } else if i == 1 {
        TokenType::Text
    } else if i == 2 {
        TokenType::Num
    } else if i == 3 {
        TokenType::Dec
    } else if i == 4 {
        TokenType::Boolean
    } else if i == 5 {
        array_token_view(lang)
    } else if i == 6 {
        map_token_view(lang)
    } else if i == 7 {
        TokenType::If
    } else if i == 8 {
        else_if_token_view(lang)
    } else if i == 9 {
        TokenType::Else
    } else if i == 10 {
        while_token_view(lang)
    } else if i == 11 {
        for_token_view(lang)
    } else if i == 12 {
        in_token_view(lang)
    } else if i == 13 {
        function_token_view(lang)
    } else if i == 14 {
        return_token_view(lang)
    } else if i == 15 {
        is_token_view(lang)
    } else if i == 16 {
        is_not_token_view(lang)
    } else {
        range_token_view(lang)
    }
}

// ================================
// Reverse maps
// ================================

/// The reverse map of one locale: each role's spelling bound to the
/// category that role activates in the locale. The bindings are laid down
/// in the fixed role order below; where two roles share a spelling, the
/// role inserted later wins — that is the resolution rule for duplicate
/// spellings within one keyword set.
pub open spec fn reverse_map_view(k: KwView, lang: Seq<char>) -> Map<Seq<char>, TokenType> {
    Map::empty()
        .insert(k.print, print_token_view(lang))
        .insert(k.text_type, TokenType::Text)
        .insert(k.number_type, TokenType::Num)
        .insert(k.decimal_type, TokenType::Dec)
        .insert(k.boolean_type, TokenType::Boolean)
        .insert(k.array_type, array_token_view(lang))
        .insert(k.map_type, map_token_view(lang))
        .insert(k.if_keyword, TokenType::If)
        .insert(k.else_if_keyword, else_if_token_view(lang))
        .insert(k.else_keyword, TokenType::Else)
        .insert(k.while_keyword, while_token_view(lang))
        .insert(k.for_keyword, for_token_view(lang))
        .insert(k.in_keyword, in_token_view(lang))
        .insert(k.function_keyword, function_token_view(lang))
        .insert(k.return_keyword, return_token_view(lang))
        .insert(k.is_keyword, is_token_view(lang))
        .insert(k.is_not_keyword, is_not_token_view(lang))
        .insert(k.range_keyword, range_token_view(lang))
}

/// The interpretation of a reverse-map entry: the category itself.
pub open spec fn token_value_view() -> spec_fn(Seq<char>, TokenType) -> TokenType {
    |k: Seq<char>, v: TokenType| v
}

/// The interpretation of a locale entry of the resolver's table: the map
/// its reverse-map list denotes.
pub open spec fn token_map_value_view() -> spec_fn(
    Seq<char>,
    Vec<(String, TokenType)>,
) -> Map<Seq<char>, TokenType> {
    |k: Seq<char>, v: Vec<(String, TokenType)>| assoc_view(v@, token_value_view())
}

/// The interpretation of a locale entry of a definition: the reverse map
/// the resolver derives for it.
pub open spec fn reverse_value_view() -> spec_fn(Seq<char>, KeyWordSet) -> Map<
    Seq<char>,
    TokenType,
> {
    |k: Seq<char>, v: KeyWordSet| reverse_map_view(v@, k)
}

/// What resolving a word under a locale yields: the locale's reverse-map
/// binding, nothing where the locale is unknown or the word is no keyword
/// of it.
pub open spec fn resolve_view(c: ConfigView, word: Seq<char>, lang: Seq<char>) -> Option<
    TokenType,
> {
    if c.keywords.dom().contains(lang) {
        map_get(reverse_map_view(c.keywords[lang], lang), word)
    } else {
        None
    }
}

/// Whether a word is a keyword of any locale of the definition.
pub open spec fn is_keyword_view(c: ConfigView, word: Seq<char>) -> bool {
    exists|l: Seq<char>|
        #[trigger] c.keywords.dom().contains(l) && reverse_map_view(c.keywords[l], l).dom().contains(
            word,
        )
}

// ================================
// The resolver
// ================================

/// A keyword resolver: a complete definition together with the reverse
/// map derived for each of its locales.
pub struct LanguageKeywordManager {
    config: MooConfig,
    token_maps: Vec<(String, Vec<(String, TokenType)>)>,
}

impl View for LanguageKeywordManager {
    type V = ConfigView;

    closed spec fn view(&self) -> ConfigView {
        self.config@
    }
}

impl LanguageKeywordManager {
    /// The derived table is a cache entirely determined by the held
    /// definition: one reverse map per locale entry, under the same name.
    #[verifier::type_invariant]
    spec fn inv(self) -> bool {
        &&& self.config.wf()
        &&& self.token_maps@.len() == self.config.keywords@.len()
        &&& forall|i: int|
            0 <= i < self.token_maps@.len() ==> #[trigger] self.token_maps@[i].0@
                == self.config.keywords@[i].0@ && assoc_view(
                self.token_maps@[i].1@,
                token_value_view(),
            ) == reverse_map_view(self.config.keywords@[i].1@, self.config.keywords@[i].0@)
    }

    /// Creates the resolver for a complete definition, deriving every
    /// locale's reverse map.
    pub fn from_config(config: MooConfig) -> (r: Self)
        requires
            config.wf(),
        ensures
            r@ == config@,
    {
        let token_maps = Self::build_token_maps(&config);
        LanguageKeywordManager { config, token_maps }
    }

    /// Creates the resolver from the outcome of reading and deserializing
    /// a configuration source, merging with the built-in defaults first;
    /// an absent source yields the resolver of the whole built-in
    /// definition.
    pub fn from_file(parsed: Result<PartialMooConfig, ConfigError>) -> (r: Result<
        Self,
        ConfigError,
    >)
        requires
            match parsed {
                Ok(p) => p.wf(),
                Err(_) => true,
            },
        ensures
            match parsed {
                Ok(p) => match r {
                    Ok(m) => m@ == merged_config_view(p),
                    Err(_) => false,
                },
                Err(e) => match e {
                    ConfigError::FileNotFoundError(_) => match r {
                        Ok(m) => m@ == default_config_view(),
                        Err(_) => false,
                    },
                    _ => r is Err && (match r {
                        Err(e2) => e2 == e,
                        Ok(_) => false,
                    }),
                },
            },
    {
        match MooConfig::load_with_defaults(parsed) {
            Ok(config) => Ok(Self::from_config(config)),
            Err(e) => Err(e),
        }
    }

    /// Re-runs merge and rebuild against the outcome of reading the
    /// external source again. On success the held definition and every
    /// reverse map are replaced together; on a failure other than an
    /// absent source, the resolver is left exactly as it was, so every
    /// query after the failed reload answers as it did before.
    pub fn reload(&mut self, parsed: Result<PartialMooConfig, ConfigError>) -> (r: Result<
        (),
        ConfigError,
    >)
        requires
            match parsed {
                Ok(p) => p.wf(),
                Err(_) => true,
            },
        ensures
            match parsed {
                Ok(p) => r is Ok && final(self)@ == merged_config_view(p),
                Err(e) => match e {
                    ConfigError::FileNotFoundError(_) => r is Ok && final(self)@
                        == default_config_view(),
                    _ => *final(self) == *old(self) && r == Err::<(), ConfigError>(e),
                },
            },
    {
        match MooConfig::load_with_defaults(parsed) {
            Ok(config) => {
                let token_maps = Self::build_token_maps(&config);
                *self = LanguageKeywordManager { config, token_maps };
                Ok(())
            },
            Err(e) => Err(e),
        }
    }

    /// Derives the reverse map of every locale of the definition.
    pub(crate) fn build_token_maps(config: &MooConfig) -> (r: Vec<(String, Vec<(String, TokenType)>)>)
        ensures
            r@.len() == config.keywords@.len(),
            forall|i: int|
                0 <= i < r@.len() ==> #[trigger] r@[i].0@ == config.keywords@[i].0@ && assoc_view(
                    r@[i].1@,
                    token_value_view(),
                ) == reverse_map_view(config.keywords@[i].1@, config.keywords@[i].0@),
    {
        let mut r: Vec<(String, Vec<(String, TokenType)>)> = Vec::new();
        let mut i: usize = 0;
        while i < config.keywords.len()
            invariant
                i <= config.keywords@.len(),
                r@.len() == i,
                forall|j: int|
                    0 <= j < i ==> #[trigger] r@[j].0@ == config.keywords@[j].0@ && assoc_view(
                        r@[j].1@,
                        token_value_view(),
                    ) == reverse_map_view(config.keywords@[j].1@, config.keywords@[j].0@),
            decreases config.keywords@.len() - i,
        {
            let lang = config.keywords[i].0.clone();
            let token_map = Self::build_reverse_map(lang.as_str(), &config.keywords[i].1);
            r.push((lang, token_map));
            i = i + 1;
        }
        r
    }

    /// Derives one locale's reverse map, inserting the 18 roles in the
    /// fixed order that settles duplicate spellings.
    fn build_reverse_map(lang: &str, ks: &KeyWordSet) -> (r: Vec<(String, TokenType)>)
        ensures
            assoc_view(r@, token_value_view()) == reverse_map_view(ks@, lang@),
            r@.len() == 18,
    {
        let mut r: Vec<(String, TokenType)> = Vec::new();
        let ghost f = token_value_view();
        proof {
            assert(assoc_view(r@, f) =~= Map::<Seq<char>, TokenType>::empty());
        }
        assoc_push::<TokenType, TokenType>(&mut r, ks.print.clone(), Self::get_print_token(lang), Ghost(f));
        assoc_push::<TokenType, TokenType>(&mut r, ks.text_type.clone(), TokenType::Text, Ghost(f));
        assoc_push::<TokenType, TokenType>(&mut r, ks.number_type.clone(), TokenType::Num, Ghost(f));
        assoc_push::<TokenType, TokenType>(&mut r, ks.decimal_type.clone(), TokenType::Dec, Ghost(f));
        assoc_push::<TokenType, TokenType>(&mut r, ks.boolean_type.clone(), TokenType::Boolean, Ghost(f));
        assoc_push::<TokenType, TokenType>(&mut r, ks.array_type.clone(), Self::get_array_token(lang), Ghost(f));
        assoc_push::<TokenType, TokenType>(&mut r, ks.map_type.clone(), Self::get_map_token(lang), Ghost(f));
        assoc_push::<TokenType, TokenType>(&mut r, ks.if_keyword.clone(), TokenType::If, Ghost(f));
        assoc_push::<TokenType, TokenType>(&mut r, ks.else_if_keyword.clone(), Self::get_else_if_token(lang), Ghost(f));
        assoc_push::<TokenType, TokenType>(&mut r, ks.else_keyword.clone(), TokenType::Else, Ghost(f));
        assoc_push::<TokenType, TokenType>(&mut r, ks.while_keyword.clone(), Self::get_while_token(lang), Ghost(f));
        assoc_push::<TokenType, TokenType>(&mut r, ks.for_keyword.clone(), Self::get_for_token(lang), Ghost(f));
        assoc_push::<TokenType, TokenType>(&mut r, ks.in_keyword.clone(), Self::get_in_token(lang), Ghost(f));
        assoc_push::<TokenType, TokenType>(&mut r, ks.function_keyword.clone(), Self::get_function_token(lang), Ghost(f));
        assoc_push::<TokenType, TokenType>(&mut r, ks.return_keyword.clone(), Self::get_return_token(lang), Ghost(f));
        assoc_push::<TokenType, TokenType>(&mut r, ks.is_keyword.clone(), Self::get_is_token(lang), Ghost(f));
        assoc_push::<TokenType, TokenType>(&mut r, ks.is_not_keyword.clone(), Self::get_is_not_token(lang), Ghost(f));
        assoc_push::<TokenType, TokenType>(&mut r, ks.range_keyword.clone(), Self::get_range_token(lang), Ghost(f));
        proof {
            assert(assoc_view(r@, f) =~= reverse_map_view(ks@, lang@));
        }
        r
    }

    /// The reverse-map entries of one locale, if the definition has it.
    pub fn get_token_map<'a>(&'a self, language: &str) -> (r: Option<
        &'a Vec<(String, TokenType)>,
    >)
        ensures
            match r {
                Some(tm) => self@.keywords.dom().contains(language@) && assoc_view(
                    tm@,
                    token_value_view(),
                ) == reverse_map_view(self@.keywords[language@], language@),
                None => !self@.keywords.dom().contains(language@),
            },
    {
        proof {
            use_type_invariant(&*self);
            self.lemma_table_view(language@);
        }
        assoc_get::<Vec<(String, TokenType)>, Map<Seq<char>, TokenType>>(
            &self.token_maps,
            language,
            Ghost(token_map_value_view()),
        )
    }

    /// Relates the derived table's view to the definition's: same locales,
    /// and per locale the reverse map of the locale's keyword set.
    proof fn lemma_table_view(&self, lang: Seq<char>)
        requires
            self.inv(),
        ensures
            assoc_view(self.token_maps@, token_map_value_view()) == assoc_view(
                self.config.keywords@,
                reverse_value_view(),
            ),
            assoc_view(self.config.keywords@, reverse_value_view()).dom().contains(lang)
                <==> self@.keywords.dom().contains(lang),
            self@.keywords.dom().contains(lang) ==> assoc_view(
                self.config.keywords@,
                reverse_value_view(),
            )[lang] == reverse_map_view(self@.keywords[lang], lang),
    {
        lemma_assoc_view_parallel(
            self.token_maps@,
            self.config.keywords@,
            token_map_value_view(),
            reverse_value_view(),
        );
        lemma_assoc_view_factor(
            self.config.keywords@,
            kw_value_view(),
            reverse_value_view(),
            |k: Seq<char>, w: KwView| reverse_map_view(w, k),
            lang,
        );
    }

    /// The keyword set of one locale, if the definition has it.
    pub fn get_keyword_set<'a>(&'a self, language: &str) -> (r: Option<&'a KeyWordSet>)
        ensures
            match r {
                Some(ks) => self@.keywords.dom().contains(language@) && self@.keywords[language@]
                    == ks@,
                None => !self@.keywords.dom().contains(language@),
            },
    {
        self.config.get_keyword_set(language)
    }

    /// The locale identifiers the resolver knows, one per locale of the
    /// definition.
    pub fn get_available_languages(&self) -> (r: Vec<String>)
        ensures
            r@.len() == self@.keywords.dom().len(),
            forall|l: Seq<char>|
                self@.keywords.dom().contains(l) <==> (exists|i: int|
                    0 <= i < r@.len() && #[trigger] r@[i]@ == l),
    {
        proof {
            use_type_invariant(&*self);
            lemma_assoc_view_len(self.config.keywords@, kw_value_view());
        }
        self.config.get_available_languages()
    }

    /// Whether a word is a keyword of any locale the resolver knows.
    pub fn is_keyword(&self, word: &str) -> (r: bool)
        ensures
            r == is_keyword_view(self@, word@),
    {
        proof {
            use_type_invariant(&*self);
        }
        let mut i: usize = 0;
        while i < self.token_maps.len()
            invariant
                self.inv(),
                i <= self.token_maps@.len(),
                forall|j: int|
                    0 <= j < i ==> !assoc_view(
                        #[trigger] self.token_maps@[j].1@,
                        token_value_view(),
                    ).dom().contains(word@),
            decreases self.token_maps@.len() - i,
        {
            if Self::contains_token(&self.token_maps[i].1, word) {
                proof {
                    let idx = i as int;
                    let kws = self.config.keywords@;
                    let l = kws[idx].0@;
                    assert(self.token_maps@[idx].0@ == kws[idx].0@);
                    assert forall|j: int| idx < j < kws.len() implies #[trigger] kws[j].0@
                        != kws[idx].0@ by {}
                    lemma_assoc_view_index(kws, kw_value_view(), idx);
                    assert(self@.keywords.dom().contains(l) && reverse_map_view(
                        self@.keywords[l],
                        l,
                    ).dom().contains(word@));
                }
                return true;
            }
            i = i + 1;
        }
        proof {
            if is_keyword_view(self@, word@) {
                let kws = self.config.keywords@;
                let l = choose|l: Seq<char>|
                    #[trigger] self@.keywords.dom().contains(l) && reverse_map_view(
                        self@.keywords[l],
                        l,
                    ).dom().contains(word@);
                lemma_assoc_view_dom(kws, kw_value_view(), l);
                let j = choose|j: int| 0 <= j < kws.len() && #[trigger] kws[j].0@ == l;
                assert forall|j2: int| j < j2 < kws.len() implies #[trigger] kws[j2].0@
                    != kws[j].0@ by {}
                lemma_assoc_view_index(kws, kw_value_view(), j);
                assert(self@.keywords[l] == kws[j].1@);
                assert(self.token_maps@[j].0@ == kws[j].0@);
                assert(!assoc_view(self.token_maps@[j].1@, token_value_view()).dom().contains(
                    word@,
                ));
            }
        }
        false
    }

    /// Whether a word is bound in one reverse-map list.
    fn contains_token(entries: &Vec<(String, TokenType)>, word: &str) -> (r: bool)
        ensures
            r == assoc_view(entries@, token_value_view()).dom().contains(word@),
    {
        let found = assoc_get::<TokenType, TokenType>(entries, word, Ghost(token_value_view()));
        found.is_some()
    }

    /// The category a word activates in a locale: its binding in that
    /// locale's reverse map alone, with no fallback across locales.
    pub fn get_token_type(&self, word: &str, language: &str) -> (r: Option<TokenType>)
        ensures
            r == resolve_view(self@, word@, language@),
    {
        match self.get_token_map(language) {
            Some(token_map) => {
                let found = assoc_get::<TokenType, TokenType>(
                    token_map,
                    word,
                    Ghost(token_value_view()),
                );
                match found {
                    Some(t) => Some(*t),
                    None => None,
                }
            },
            None => None,
        }
    }

    // Helper methods choosing the locale-specific category identity of a
    // role, with the English identity as the fallback for any locale
    // outside the table.
    fn get_print_token(lang: &str) -> (t: TokenType)
        ensures
            t == print_token_view(lang@),
    {
        if str_eq(lang, "es") {
            TokenType::Muuu
        } else {
            TokenType::Moo
        }
    }

    fn get_array_token(lang: &str) -> (t: TokenType)
        ensures
            t == array_token_view(lang@),
    {
        if str_eq(lang, "es") {
            TokenType::Granja
        } else {
            TokenType::Coop
        }
    }

    fn get_map_token(lang: &str) -> (t: TokenType)
        ensures
            t == map_token_view(lang@),
    {
        if str_eq(lang, "es") {
            TokenType::MapaEstablo
        } else {
            TokenType::BarnMap
        }
    }

    fn get_else_if_token(lang: &str) -> (t: TokenType)
        ensures
            t == else_if_token_view(lang@),
    {
        if str_eq(lang, "es") {
            TokenType::SinoSi
        } else {
            TokenType::ElseIf
        }
    }

    fn get_while_token(lang: &str) -> (t: TokenType)
        ensures
            t == while_token_view(lang@),
    {
        if str_eq(lang, "es") {
            TokenType::Mientras
        } else {
            TokenType::While
        }
    }

    fn get_for_token(lang: &str) -> (t: TokenType)
        ensures
            t == for_token_view(lang@),
    {
        if str_eq(lang, "es") {
            TokenType::Para
        } else {
            TokenType::For
        }
    }

    fn get_in_token(lang: &str) -> (t: TokenType)
        ensures
            t == in_token_view(lang@),
    {
        if str_eq(lang, "es") {
            TokenType::En
        } else {
            TokenType::In
        }
    }

    fn get_function_token(lang: &str) -> (t: TokenType)
        ensures
            t == function_token_view(lang@),
    {
        if str_eq(lang, "es") {
            TokenType::Funciongranja
        } else {
            TokenType::Farmfunction
        }
    }

    fn get_return_token(lang: &str) -> (t: TokenType)
        ensures
            t == return_token_view(lang@),
    {
        if str_eq(lang, "es") {
            TokenType::Regresa
        } else {
            TokenType::Return
        }
    }

    fn get_is_token(lang: &str) -> (t: TokenType)
        ensures
            t == is_token_view(lang@),
    {
        if str_eq(lang, "es") {
            TokenType::Es
        } else {
            TokenType::Is
        }
    }

    fn get_is_not_token(lang: &str) -> (t: TokenType)
        ensures
            t == is_not_token_view(lang@),
    {
        if str_eq(lang, "es") {
            TokenType::NoEs
        } else {
            TokenType::IsNot
        }
    }

    fn get_range_token(lang: &str) -> (t: TokenType)
        ensures
            t == range_token_view(lang@),
    {
        if str_eq(lang, "es") {
            TokenType::Granero
        } else {
            TokenType::Barn
        }
    }
}

} // verus!
