//! The shared keyword table behind the process-wide registry: a complete
//! definition with one reverse map per locale, rebuilt in full on reload.
//!
//! The maps are the same locale-aware reverse maps the resolver derives:
//! each role's spelling bound to the category identity that role
//! activates in its locale. A reload is all-or-nothing: given a failed
//! load it leaves the table exactly as it was.

use vstd::prelude::*;
use crate::assoc::{
    assoc_get, assoc_view, lemma_assoc_view_factor, lemma_assoc_view_parallel,
    lemma_assoc_view_len,
};
use crate::config_errors::ConfigError;
use crate::language_config::{ConfigView, KwView, MooConfig, kw_value_view};
use crate::keyword_manager::{
    LanguageKeywordManager, reverse_map_view, reverse_value_view, token_value_view,
    token_map_value_view,
};
use crate::tokens::TokenType;

verus! {

/// A keyword table kept for the lifetime of the process: the held
/// definition and the per-locale reverse maps derived from it.
pub struct DynamicLanguageKeywords {
    config: MooConfig,
    keyword_maps: Vec<(String, Vec<(String, TokenType)>)>,
}

impl View for DynamicLanguageKeywords {
    type V = ConfigView;

    closed spec fn view(&self) -> ConfigView {
        self.config@
    }
}

impl DynamicLanguageKeywords {
    /// The derived maps are a cache entirely determined by the held
    /// definition: one reverse map per locale entry, under the same name.
    #[verifier::type_invariant]
    spec fn inv(self) -> bool {
        &&& self.config.wf()
        &&& self.keyword_maps@.len() == self.config.keywords@.len()
        &&& forall|i: int|
            0 <= i < self.keyword_maps@.len() ==> #[trigger] self.keyword_maps@[i].0@
                == self.config.keywords@[i].0@ && assoc_view(
                self.keyword_maps@[i].1@,
                token_value_view(),
            ) == reverse_map_view(self.config.keywords@[i].1@, self.config.keywords@[i].0@)
    }

    /// Creates the table for a complete definition, deriving every
    /// locale's reverse map.
    pub fn new(config: MooConfig) -> (r: Self)
        requires
            config.wf(),
        ensures
            r@ == config@,
    {
        let keyword_maps = Self::build_keyword_maps(&config);
        DynamicLanguageKeywords { config, keyword_maps }
    }

    /// Derives the reverse map of every locale of the definition, with
    /// the locale-specific category identities.
    fn build_keyword_maps(config: &MooConfig) -> (r: Vec<(String, Vec<(String, TokenType)>)>)
        ensures
            r@.len() == config.keywords@.len(),
            forall|i: int|
                0 <= i < r@.len() ==> #[trigger] r@[i].0@ == config.keywords@[i].0@ && assoc_view(
                    r@[i].1@,
                    token_value_view(),
                ) == reverse_map_view(config.keywords@[i].1@, config.keywords@[i].0@),
    {
        let r = LanguageKeywordManager::build_token_maps(config);
        proof {
            assert forall|i: int|
                0 <= i < r@.len() implies #[trigger] r@[i].0@ == config.keywords@[i].0@
                && assoc_view(r@[i].1@, token_value_view()) == reverse_map_view(
                config.keywords@[i].1@,
                config.keywords@[i].0@,
            ) by {
                assert(r@[i].0@ == config.keywords@[i].0@);
            }
        }
        r
    }

    /// The reverse map of one locale, if the definition has it.
    pub fn get_keywords<'a>(&'a self, language: &str) -> (r: Option<&'a Vec<(String, TokenType)>>)
        ensures
            match r {
                Some(m) => self@.keywords.dom().contains(language@) && assoc_view(
                    m@,
                    token_value_view(),
                ) == reverse_map_view(self@.keywords[language@], language@),
                None => !self@.keywords.dom().contains(language@),
            },
    {
        proof {
            use_type_invariant(&*self);
            lemma_assoc_view_parallel(
                self.keyword_maps@,
                self.config.keywords@,
                token_map_value_view(),
                reverse_value_view(),
            );
            lemma_assoc_view_factor(
                self.config.keywords@,
                kw_value_view(),
                reverse_value_view(),
                |k: Seq<char>, w: KwView| reverse_map_view(w, k),
                language@,
            );
        }
        assoc_get::<Vec<(String, TokenType)>, Map<Seq<char>, TokenType>>(
            &self.keyword_maps,
            language,
            Ghost(token_map_value_view()),
        )
    }

    /// The held definition.
    pub fn get_config(&self) -> (r: &MooConfig)
        ensures
            r@ == self@,
            r.wf(),
    {
        proof {
            use_type_invariant(&*self);
        }
        &self.config
    }

    /// Replaces the definition and rebuilds every derived map — but only
    /// given a successful load: given a failed one, the table is left
    /// exactly as it was, and the failure is passed on to the caller.
    pub fn reload_config(&mut self, loaded: Result<MooConfig, ConfigError>) -> (r: Result<
        (),
        ConfigError,
    >)
        requires
            match loaded {
                Ok(c) => c.wf(),
                Err(_) => true,
            },
        ensures
            match loaded {
                Ok(c) => final(self)@ == c@ && r is Ok,
                Err(e) => *final(self) == *old(self) && r == Err::<(), ConfigError>(e),
            },
    {
        match loaded {
            Ok(new_config) => {
                let maps = Self::build_keyword_maps(&new_config);
                *self = DynamicLanguageKeywords { config: new_config, keyword_maps: maps };
                Ok(())
            },
            Err(e) => Err(e),
        }
    }

    /// The locale identifiers the table knows, one per locale of the
    /// definition.
    pub fn get_available_languages(&self) -> (r: Vec<String>)
        ensures
            r@.len() == self@.keywords.dom().len(),
            forall|l: Seq<char>|
                self@.keywords.dom().contains(l) <==> (exists|i: int|
                    0 <= i < r@.len() && #[trigger] r@[i]@ == l),
    {
        proof {
            use_type_invariant(&*self);
            lemma_assoc_view_len(self.config.keywords@, kw_value_view());
        }
        self.config.get_available_languages()
    }
}

} // verus!
