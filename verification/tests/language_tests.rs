use moolang::config_errors::ConfigError;
use moolang::dynamic_keywords::DynamicLanguageKeywords;
use moolang::keyword_manager::LanguageKeywordManager;
use moolang::language_config::{
    KeyWordSet, MooConfig, PartialKeyWordSet, PartialLanguageSettings, PartialMooConfig,
};
use moolang::tokens::TokenType;

fn empty_partial_set() -> PartialKeyWordSet {
    PartialKeyWordSet {
        print: None,
        text_type: None,
        number_type: None,
        decimal_type: None,
        boolean_type: None,
        array_type: None,
        map_type: None,
        if_keyword: None,
        else_if_keyword: None,
        else_keyword: None,
        while_keyword: None,
        for_keyword: None,
        in_keyword: None,
        function_keyword: None,
        return_keyword: None,
        is_keyword: None,
        is_not_keyword: None,
        range_keyword: None,
    }
}

fn full_partial_set(tag: &str) -> PartialKeyWordSet {
    PartialKeyWordSet {
        print: Some(format!("{tag}print")),
        text_type: Some(format!("{tag}text")),
        number_type: Some(format!("{tag}num")),
        decimal_type: Some(format!("{tag}dec")),
        boolean_type: Some(format!("{tag}bool")),
        array_type: Some(format!("{tag}arr")),
        map_type: Some(format!("{tag}map")),
        if_keyword: Some(format!("{tag}if")),
        else_if_keyword: Some(format!("{tag}elif")),
        else_keyword: Some(format!("{tag}else")),
        while_keyword: Some(format!("{tag}while")),
        for_keyword: Some(format!("{tag}for")),
        in_keyword: Some(format!("{tag}in")),
        function_keyword: Some(format!("{tag}fn")),
        return_keyword: Some(format!("{tag}ret")),
        is_keyword: Some(format!("{tag}is")),
        is_not_keyword: Some(format!("{tag}isnot")),
        range_keyword: Some(format!("{tag}range")),
    }
}

#[test]
fn test_config_loading() {
    let config = MooConfig::from_default();
    assert!(config.get_keyword_set("en").is_some());
    assert!(config.get_keyword_set("es").is_some());
}

#[test]
fn test_keyword_manager() {
    let config = MooConfig::from_default();
    let manager = LanguageKeywordManager::from_config(config);

    assert!(manager.is_keyword("moo"));
    assert!(manager.is_keyword("muuu"));
    assert_eq!(manager.get_token_type("moo", "en"), Some(TokenType::Moo));
    assert_eq!(manager.get_token_type("muuu", "es"), Some(TokenType::Muuu));
}

#[test]
fn default_english_spellings_resolve() {
    let manager = LanguageKeywordManager::from_config(MooConfig::from_default());
    let expected = [
        ("moo", TokenType::Moo),
        ("text", TokenType::Text),
        ("num", TokenType::Num),
        ("dec", TokenType::Dec),
        ("boolean", TokenType::Boolean),
        ("coop", TokenType::Coop),
        ("barn_map", TokenType::BarnMap),
        ("if", TokenType::If),
        ("else if", TokenType::ElseIf),
        ("else", TokenType::Else),
        ("while", TokenType::While),
        ("for", TokenType::For),
        ("in", TokenType::In),
        ("farmfunction", TokenType::Farmfunction),
        ("return", TokenType::Return),
        ("is", TokenType::Is),
        ("is not", TokenType::IsNot),
        ("barn", TokenType::Barn),
    ];
    for (word, token) in expected {
        assert_eq!(manager.get_token_type(word, "en"), Some(token));
    }
}

#[test]
fn default_spanish_spellings_resolve() {
    let manager = LanguageKeywordManager::from_config(MooConfig::from_default());
    let expected = [
        ("muuu", TokenType::Muuu),
        ("texto", TokenType::Text),
        ("numero", TokenType::Num),
        ("decimal", TokenType::Dec),
        ("booleano", TokenType::Boolean),
        ("granja", TokenType::Granja),
        ("mapa_establo", TokenType::MapaEstablo),
        ("si", TokenType::If),
        ("sino si", TokenType::SinoSi),
        ("sino", TokenType::Else),
        ("mientras", TokenType::Mientras),
        ("para", TokenType::Para),
        ("en", TokenType::En),
        ("funciongranja", TokenType::Funciongranja),
        ("regresa", TokenType::Regresa),
        ("es", TokenType::Es),
        ("no es", TokenType::NoEs),
        ("granero", TokenType::Granero),
    ];
    for (word, token) in expected {
        assert_eq!(manager.get_token_type(word, "es"), Some(token));
    }
    assert_eq!(manager.get_token_type("si", "en"), None);
    assert_eq!(manager.get_token_type("moo", "es"), None);
}

#[test]
fn merge_complete_partial_keeps_overrides() {
    let defaults = MooConfig::from_default();
    let default_en = defaults.get_keyword_set("en").unwrap();
    let merged = MooConfig::merge_keyword_sets(clone_set(default_en), full_partial_set("x"));
    assert_eq!(merged.print, "xprint");
    assert_eq!(merged.text_type, "xtext");
    assert_eq!(merged.number_type, "xnum");
    assert_eq!(merged.decimal_type, "xdec");
    assert_eq!(merged.boolean_type, "xbool");
    assert_eq!(merged.array_type, "xarr");
    assert_eq!(merged.map_type, "xmap");
    assert_eq!(merged.if_keyword, "xif");
    assert_eq!(merged.else_if_keyword, "xelif");
    assert_eq!(merged.else_keyword, "xelse");
    assert_eq!(merged.while_keyword, "xwhile");
    assert_eq!(merged.for_keyword, "xfor");
    assert_eq!(merged.in_keyword, "xin");
    assert_eq!(merged.function_keyword, "xfn");
    assert_eq!(merged.return_keyword, "xret");
    assert_eq!(merged.is_keyword, "xis");
    assert_eq!(merged.is_not_keyword, "xisnot");
    assert_eq!(merged.range_keyword, "xrange");
}

fn clone_set(ks: &KeyWordSet) -> KeyWordSet {
    KeyWordSet {
        print: ks.print.clone(),
        text_type: ks.text_type.clone(),
        number_type: ks.number_type.clone(),
        decimal_type: ks.decimal_type.clone(),
        boolean_type: ks.boolean_type.clone(),
        array_type: ks.array_type.clone(),
        map_type: ks.map_type.clone(),
        if_keyword: ks.if_keyword.clone(),
        else_if_keyword: ks.else_if_keyword.clone(),
        else_keyword: ks.else_keyword.clone(),
        while_keyword: ks.while_keyword.clone(),
        for_keyword: ks.for_keyword.clone(),
        in_keyword: ks.in_keyword.clone(),
        function_keyword: ks.function_keyword.clone(),
        return_keyword: ks.return_keyword.clone(),
        is_keyword: ks.is_keyword.clone(),
        is_not_keyword: ks.is_not_keyword.clone(),
        range_keyword: ks.range_keyword.clone(),
    }
}

#[test]
fn merge_sparse_partial_covers_all_roles() {
    let mut sparse = empty_partial_set();
    sparse.while_keyword = Some("loopy".to_string());
    let partial = PartialMooConfig {
        language: None,
        keywords: Some(vec![("en".to_string(), sparse)]),
    };
    let merged = MooConfig::merge_with_defaults(partial);
    let en = merged.get_keyword_set("en").unwrap();
    let all = [
        &en.print,
        &en.text_type,
        &en.number_type,
        &en.decimal_type,
        &en.boolean_type,
        &en.array_type,
        &en.map_type,
        &en.if_keyword,
        &en.else_if_keyword,
        &en.else_keyword,
        &en.while_keyword,
        &en.for_keyword,
        &en.in_keyword,
        &en.function_keyword,
        &en.return_keyword,
        &en.is_keyword,
        &en.is_not_keyword,
        &en.range_keyword,
    ];
    for spelling in all {
        assert!(!spelling.is_empty());
    }
    assert_eq!(en.while_keyword, "loopy");
    assert_eq!(en.print, "moo");
    assert_eq!(merged.language.version, "1.0.0");
    assert_eq!(merged.language.default_language, "en");
}

#[test]
fn merge_unknown_locale_synthesizes_defaults() {
    let mut sparse = empty_partial_set();
    sparse.if_keyword = Some("falls".to_string());
    let partial = PartialMooConfig {
        language: None,
        keywords: Some(vec![("de".to_string(), sparse)]),
    };
    let merged = MooConfig::merge_with_defaults(partial);
    let de = merged.get_keyword_set("de").unwrap();
    assert_eq!(de.if_keyword, "falls");
    assert_eq!(de.print, "muh");
    assert_eq!(de.number_type, "nummer");
    assert_eq!(de.range_keyword, "scheune");
    let other = PartialMooConfig {
        language: None,
        keywords: Some(vec![("fr".to_string(), empty_partial_set())]),
    };
    let merged_other = MooConfig::merge_with_defaults(other);
    let fr = merged_other.get_keyword_set("fr").unwrap();
    assert_eq!(fr.print, "print");
    assert_eq!(fr.is_keyword, "==");
}

#[test]
fn merge_empty_partial_restores_builtin_table() {
    let partial = PartialMooConfig {
        language: Some(PartialLanguageSettings {
            version: Some("2.0.0".to_string()),
            default_language: Some("es".to_string()),
        }),
        keywords: Some(Vec::new()),
    };
    let merged = MooConfig::merge_with_defaults(partial);
    assert_eq!(merged.language.version, "2.0.0");
    assert_eq!(merged.language.default_language, "es");
    assert!(merged.get_keyword_set("en").is_some());
    assert!(merged.get_keyword_set("es").is_some());
    let none_partial = PartialMooConfig { language: None, keywords: None };
    let merged_none = MooConfig::merge_with_defaults(none_partial);
    assert_eq!(merged_none.get_available_languages().len(), 2);
}

#[test]
fn reverse_map_has_eighteen_entries() {
    let manager = LanguageKeywordManager::from_config(MooConfig::from_default());
    assert_eq!(manager.get_token_map("en").unwrap().len(), 18);
    assert_eq!(manager.get_token_map("es").unwrap().len(), 18);
    assert!(manager.get_token_map("de").is_none());
}

#[test]
fn duplicate_spelling_later_role_wins() {
    // Give English the same spelling for the print role and the if role:
    // the if role is laid down later in the fixed order, so it wins.
    let mut dup = empty_partial_set();
    dup.if_keyword = Some("moo".to_string());
    let partial = PartialMooConfig {
        language: None,
        keywords: Some(vec![("en".to_string(), dup)]),
    };
    let manager = LanguageKeywordManager::from_config(MooConfig::merge_with_defaults(partial));
    assert_eq!(manager.get_token_type("moo", "en"), Some(TokenType::If));
}

#[test]
fn concrete_spanish_override_scenario() {
    let mut sparse = empty_partial_set();
    sparse.if_keyword = Some("si".to_string());
    let partial = PartialMooConfig {
        language: None,
        keywords: Some(vec![("es".to_string(), sparse)]),
    };
    let merged = MooConfig::merge_with_defaults(partial);
    let es = merged.get_keyword_set("es").unwrap();
    assert_eq!(es.print, "muuu");
    assert_eq!(es.while_keyword, "mientras");
    assert_eq!(es.if_keyword, "si");
    let manager = LanguageKeywordManager::from_config(merged);
    assert_eq!(manager.get_token_type("si", "es"), Some(TokenType::If));
    assert_eq!(manager.get_token_type("si", "en"), None);
}

#[test]
fn load_with_defaults_policy() {
    let parsed_ok: Result<PartialMooConfig, ConfigError> =
        Ok(PartialMooConfig { language: None, keywords: None });
    let loaded = MooConfig::load_with_defaults(parsed_ok).unwrap();
    assert!(loaded.get_keyword_set("en").is_some());

    let absent: Result<PartialMooConfig, ConfigError> =
        Err(ConfigError::FileNotFoundError("moolang_config.toml".to_string()));
    let fallback = MooConfig::load_with_defaults(absent).unwrap();
    assert_eq!(fallback.language.version, "1.0.0");

    let malformed: Result<PartialMooConfig, ConfigError> =
        Err(ConfigError::ParseError("expected a table".to_string()));
    let failed = MooConfig::load_with_defaults(malformed);
    assert!(matches!(failed, Err(ConfigError::ParseError(_))));

    let unreadable: Result<PartialMooConfig, ConfigError> =
        Err(ConfigError::IOError("permission denied".to_string()));
    let failed_io = MooConfig::load_with_defaults(unreadable);
    assert!(matches!(failed_io, Err(ConfigError::IOError(_))));
}

#[test]
fn load_smart_never_fails() {
    let malformed: Result<PartialMooConfig, ConfigError> =
        Err(ConfigError::ParseError("bad".to_string()));
    let config = MooConfig::load_smart(malformed);
    assert_eq!(config.language.default_language, "en");
    assert_eq!(config.keyword_count("en"), 18);
    assert_eq!(config.keyword_count("xx"), 0);
    assert_eq!(config.total_keywords(), 36);
}

#[test]
fn manager_from_file_policy() {
    let absent: Result<PartialMooConfig, ConfigError> =
        Err(ConfigError::FileNotFoundError("missing.toml".to_string()));
    let manager = LanguageKeywordManager::from_file(absent).unwrap();
    assert!(manager.is_keyword("mientras"));
    assert!(!manager.is_keyword("mientra"));

    let malformed: Result<PartialMooConfig, ConfigError> =
        Err(ConfigError::ParseError("bad".to_string()));
    assert!(LanguageKeywordManager::from_file(malformed).is_err());
}

#[test]
fn available_languages_list_locales() {
    let config = MooConfig::from_default();
    let mut langs = config.get_available_languages();
    langs.sort();
    assert_eq!(langs, vec!["en".to_string(), "es".to_string()]);
    let manager = LanguageKeywordManager::from_config(config);
    let mut manager_langs = manager.get_available_languages();
    manager_langs.sort();
    assert_eq!(manager_langs, vec!["en".to_string(), "es".to_string()]);
}

#[test]
fn dynamic_keywords_use_locale_identities() {
    let table = DynamicLanguageKeywords::new(MooConfig::from_default());
    let es_map = table.get_keywords("es").unwrap();
    let muuu = es_map.iter().find(|(w, _)| w.as_str() == "muuu").unwrap();
    assert_eq!(muuu.1, TokenType::Muuu);
    let si = es_map.iter().find(|(w, _)| w.as_str() == "si").unwrap();
    assert_eq!(si.1, TokenType::If);
    let en_map = table.get_keywords("en").unwrap();
    let moo = en_map.iter().find(|(w, _)| w.as_str() == "moo").unwrap();
    assert_eq!(moo.1, TokenType::Moo);
    assert!(table.get_keywords("de").is_none());
    let mut langs = table.get_available_languages();
    langs.sort();
    assert_eq!(langs, vec!["en".to_string(), "es".to_string()]);
}

#[test]
fn reload_failure_leaves_answers_unchanged() {
    let mut table = DynamicLanguageKeywords::new(MooConfig::from_default());
    let before: Vec<(String, TokenType)> = table.get_keywords("en").unwrap().clone();
    let outcome = table.reload_config(Err(ConfigError::ParseError("broken".to_string())));
    assert!(matches!(outcome, Err(ConfigError::ParseError(_))));
    let after: Vec<(String, TokenType)> = table.get_keywords("en").unwrap().clone();
    assert_eq!(before, after);
    assert_eq!(table.get_config().language.version, "1.0.0");
}

#[test]
fn reload_success_swaps_the_table() {
    let mut table = DynamicLanguageKeywords::new(MooConfig::from_default());
    let mut sparse = empty_partial_set();
    sparse.print = Some("holler".to_string());
    let new_config = MooConfig::merge_with_defaults(PartialMooConfig {
        language: None,
        keywords: Some(vec![("en".to_string(), sparse)]),
    });
    assert!(table.reload_config(Ok(new_config)).is_ok());
    let en_map = table.get_keywords("en").unwrap();
    assert!(en_map.iter().any(|(w, t)| w.as_str() == "holler" && *t == TokenType::Moo));
    assert!(table.get_keywords("es").is_none());
}

#[test]
fn config_error_messages() {
    let not_found = ConfigError::FileNotFoundError("a.toml".to_string());
    assert_eq!(not_found.message(), "File not found: a.toml");
    let parse = ConfigError::ParseError("line 3".to_string());
    assert_eq!(parse.message(), "Parse error: line 3");
    let io = ConfigError::IOError("denied".to_string());
    assert_eq!(io.message(), "IO error: denied");
}

#[test]
fn lexer_error_messages() {
    let read = moolang::lexer_errors::LexerError::FileReadError("gone".to_string());
    assert_eq!(read.message(), "File read error: gone");
    let token = moolang::lexer_errors::LexerError::TokenizationError("bad char".to_string());
    assert_eq!(token.message(), "Tokenization error: bad char");
}

#[test]
fn config_description_text() {
    let config = MooConfig::from_default();
    assert_eq!(
        config.message(),
        "MooConfig { version: 1.0.0, default_language: en }"
    );
}

#[test]
fn resolver_reload_is_all_or_nothing() {
    let mut manager = LanguageKeywordManager::from_config(MooConfig::from_default());

    let before_es = manager.get_token_type("mientras", "es");
    let before_en = manager.get_token_type("mientras", "en");
    let malformed: Result<PartialMooConfig, ConfigError> =
        Err(ConfigError::ParseError("unexpected token".to_string()));
    assert!(manager.reload(malformed).is_err());
    assert_eq!(manager.get_token_type("mientras", "es"), before_es);
    assert_eq!(manager.get_token_type("mientras", "en"), before_en);

    let mut sparse = empty_partial_set();
    sparse.while_keyword = Some("whilst".to_string());
    let parsed: Result<PartialMooConfig, ConfigError> = Ok(PartialMooConfig {
        language: None,
        keywords: Some(vec![("en".to_string(), sparse)]),
    });
    assert!(manager.reload(parsed).is_ok());
    assert_eq!(manager.get_token_type("whilst", "en"), Some(TokenType::While));
    assert_eq!(manager.get_token_type("mientras", "es"), None);
}

#[test]
fn settings_fall_back_field_by_field() {
    let version_only = PartialMooConfig {
        language: Some(PartialLanguageSettings {
            version: Some("3.1.4".to_string()),
            default_language: None,
        }),
        keywords: None,
    };
    let merged = MooConfig::merge_with_defaults(version_only);
    assert_eq!(merged.language.version, "3.1.4");
    assert_eq!(merged.language.default_language, "en");

    let locale_only = PartialMooConfig {
        language: Some(PartialLanguageSettings {
            version: None,
            default_language: Some("es".to_string()),
        }),
        keywords: None,
    };
    let merged_locale = MooConfig::merge_with_defaults(locale_only);
    assert_eq!(merged_locale.language.version, "1.0.0");
    assert_eq!(merged_locale.language.default_language, "es");
}
