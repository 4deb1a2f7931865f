use zsh_plugin_init::error::Error;
use zsh_plugin_init::name::{Name, NameErrorKind};

#[test]
fn valid_simple_name() {
    let name: Result<Name, _> = "myplugin".parse();
    assert!(name.is_ok());
    assert_eq!(name.unwrap().as_str(), "myplugin");
}

#[test]
fn valid_name_with_hyphens() {
    let name: Result<Name, _> = "my-plugin".parse();
    assert!(name.is_ok());
    assert_eq!(name.unwrap().as_str(), "my-plugin");
}

#[test]
fn valid_name_with_underscores() {
    let name: Result<Name, _> = "my_plugin".parse();
    assert!(name.is_ok());
    assert_eq!(name.unwrap().as_str(), "my_plugin");
}

#[test]
fn valid_name_with_numbers() {
    let name: Result<Name, _> = "plugin2".parse();
    assert!(name.is_ok());
    assert_eq!(name.unwrap().as_str(), "plugin2");
}

#[test]
fn valid_name_mixed() {
    let name: Result<Name, _> = "My-Plugin_v2".parse();
    assert!(name.is_ok());
    assert_eq!(name.unwrap().as_str(), "My-Plugin_v2");
}

#[test]
fn valid_single_char() {
    let name: Result<Name, _> = "a".parse();
    assert!(name.is_ok());
}

#[test]
fn invalid_empty_name() {
    let name: Result<Name, _> = "".parse();
    assert!(name.is_err());
    if let Err(Error::InvalidName { kind }) = name {
        assert_eq!(kind, NameErrorKind::Empty);
    } else {
        panic!("Expected InvalidName error with Empty kind");
    }
}

#[test]
fn invalid_starts_with_number() {
    let name: Result<Name, _> = "2plugin".parse();
    assert!(name.is_err());
    if let Err(Error::InvalidName { kind }) = name {
        assert_eq!(kind, NameErrorKind::InvalidInitialChar);
    } else {
        panic!("Expected InvalidName error with InvalidInitialChar kind");
    }
}

#[test]
fn invalid_starts_with_hyphen() {
    let name: Result<Name, _> = "-plugin".parse();
    assert!(name.is_err());
    if let Err(Error::InvalidName { kind }) = name {
        assert_eq!(kind, NameErrorKind::InvalidInitialChar);
    } else {
        panic!("Expected InvalidName error with InvalidInitialChar kind");
    }
}

#[test]
fn invalid_starts_with_underscore() {
    let name: Result<Name, _> = "_plugin".parse();
    assert!(name.is_err());
    if let Err(Error::InvalidName { kind }) = name {
        assert_eq!(kind, NameErrorKind::InvalidInitialChar);
    } else {
        panic!("Expected InvalidName error with InvalidInitialChar kind");
    }
}

#[test]
fn invalid_contains_space() {
    let name: Result<Name, _> = "my plugin".parse();
    assert!(name.is_err());
    if let Err(Error::InvalidName { kind }) = name {
        assert_eq!(kind, NameErrorKind::InvalidChar);
    } else {
        panic!("Expected InvalidName error with InvalidChar kind");
    }
}

#[test]
fn invalid_contains_special_char() {
    let name: Result<Name, _> = "my@plugin".parse();
    assert!(name.is_err());
    if let Err(Error::InvalidName { kind }) = name {
        assert_eq!(kind, NameErrorKind::InvalidChar);
    } else {
        panic!("Expected InvalidName error with InvalidChar kind");
    }
}

#[test]
fn as_ref_returns_str() {
    let name: Name = "myplugin".parse().unwrap();
    let s: &str = name.as_str();
    assert_eq!(s, "myplugin");
}

#[test]
fn into_string() {
    let name: Name = "myplugin".parse().unwrap();
    let s: String = name.into();
    assert_eq!(s, "myplugin");
}

#[test]
fn invalid_trailing_special_char() {
    let name = Name::new("plugin!");
    assert!(matches!(
        name,
        Err(Error::InvalidName { kind: NameErrorKind::InvalidChar })
    ));
}

#[test]
fn valid_name_keeps_case_and_hyphens() {
    let name = Name::new("Some-Name_9").unwrap();
    assert_eq!(name.as_str(), "Some-Name_9");
}

#[test]
fn normalized_replaces_every_hyphen() {
    let name = Name::new("a-b-c-d").unwrap();
    assert_eq!(name.normalized(), "a_b_c_d");
}

#[test]
fn normalized_keeps_hyphen_free_names() {
    let name = Name::new("plain_name2").unwrap();
    assert_eq!(name.normalized(), "plain_name2");
}

#[test]
fn var_name_is_upper_cased_normalized_name() {
    let name = Name::new("my-plugin").unwrap();
    assert_eq!(name.normalized(), "my_plugin");
    assert_eq!(name.var_name(), "MY_PLUGIN");
}

#[test]
fn error_kind_messages() {
    assert_eq!(NameErrorKind::Empty.message(), "Name cannot be empty");
    assert_eq!(
        NameErrorKind::InvalidInitialChar.message(),
        "Initial character must be an ASCII alphabetic character"
    );
    assert_eq!(
        NameErrorKind::InvalidChar.message(),
        "Characters must be ASCII alphanumeric, '-', or '_'"
    );
}

#[test]
fn var_name_keeps_digits_and_underscores() {
    let name = Name::new("v2-mix_Ed").unwrap();
    assert_eq!(name.var_name(), "V2_MIX_ED");
}
