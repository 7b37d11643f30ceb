use elefren::apps::{App, AppBuilder, Finalizable, Scopes, OUT_OF_BAND_REDIRECT};
use elefren::errors::Error;

#[test]
fn test_app_builder() {
    let builder = App::builder();
    assert_eq!(builder, AppBuilder::new());
}

#[test]
fn test_app_scopes() {
    let mut builder = App::builder();
    builder.client_name("test").scopes(Scopes::All);
    let app = builder.build().expect("Couldn't build App");
    assert_eq!(app.scopes(), Scopes::All);
}

#[test]
fn test_app_builder_all_methods() {
    let mut builder = AppBuilder::new();
    builder.client_name("foo-test");
    builder.redirect_uris("http://example.com");
    builder.scopes(Scopes::ReadWrite);
    builder.website("https://example.com");
    let app = builder.build().expect("Couldn't build App");
    assert_eq!(
        app,
        App {
            client_name: "foo-test".to_string(),
            redirect_uris: "http://example.com".to_string(),
            scopes: Scopes::ReadWrite,
            website: Some("https://example.com".to_string()),
        }
    );
}

#[test]
#[should_panic]
fn test_app_builder_build_fails_if_no_client_name_1() {
    App::builder().build().expect("no client-name");
}

#[test]
#[should_panic]
fn test_app_builder_build_fails_if_no_client_name_2() {
    let mut builder = App::builder();
    builder
        .website("https://example.com")
        .redirect_uris("https://example.com")
        .scopes(Scopes::All);
    builder.build().expect("no client-name");
}

#[test]
fn test_app_try_into_app() {
    let app = App {
        client_name: "foo-test".to_string(),
        redirect_uris: "http://example.com".to_string(),
        scopes: Scopes::All,
        website: None,
    };
    let expected = app.clone();
    let result = app.finalize().expect("Couldn't make App into App");
    assert_eq!(expected, result);
}

#[test]
fn test_app_builder_try_into_app() {
    let mut builder = App::builder();
    builder
        .client_name("foo-test")
        .redirect_uris("http://example.com")
        .scopes(Scopes::All);
    let expected = App {
        client_name: "foo-test".to_string(),
        redirect_uris: "http://example.com".to_string(),
        scopes: Scopes::All,
        website: None,
    };
    let result = builder
        .finalize()
        .expect("Couldn't make AppBuilder into App");
    assert_eq!(expected, result);
}

#[test]
fn test_scopes_display() {
    let values = [
        Scopes::All,
        Scopes::Follow,
        Scopes::Read,
        Scopes::ReadFollow,
        Scopes::ReadWrite,
        Scopes::Write,
        Scopes::WriteFollow,
    ];

    let expecteds = [
        "read%20write%20follow".to_string(),
        "follow".to_string(),
        "read".to_string(),
        "read%20follow".to_string(),
        "read%20write".to_string(),
        "write".to_string(),
        "write%20follow".to_string(),
    ];

    let tests = values.into_iter().zip(expecteds.into_iter());

    for (value, expected) in tests {
        let result = value.encode();
        assert_eq!(result, expected);
    }
}

#[test]
fn test_scopes_default() {
    let default: Scopes = Default::default();
    assert_eq!(default, Scopes::Read);
}

#[test]
fn scopes_wire_names_are_space_joined() {
    let pairs = [
        (Scopes::All, "read write follow"),
        (Scopes::Follow, "follow"),
        (Scopes::Read, "read"),
        (Scopes::ReadFollow, "read follow"),
        (Scopes::ReadWrite, "read write"),
        (Scopes::Write, "write"),
        (Scopes::WriteFollow, "write follow"),
    ];
    for (value, expected) in pairs {
        assert_eq!(value.wire_name(), expected);
    }
}

#[test]
fn scope_encodings_are_distinct() {
    let values = [
        Scopes::All,
        Scopes::Follow,
        Scopes::Read,
        Scopes::ReadFollow,
        Scopes::ReadWrite,
        Scopes::Write,
        Scopes::WriteFollow,
    ];
    for a in values {
        for b in values {
            assert_eq!(a.encode() == b.encode(), a == b);
        }
    }
}

#[test]
fn missing_client_name_names_the_field() {
    let mut builder = AppBuilder::new();
    builder
        .redirect_uris("http://example.com")
        .scopes(Scopes::Write)
        .website("https://example.com");
    match builder.build() {
        Err(Error::MissingField(field)) => assert_eq!(field, "client_name"),
        Ok(app) => panic!("built without a client name: {:?}", app),
    }
}

#[test]
fn missing_client_name_fails_through_finalize() {
    let builder = App::builder();
    assert!(matches!(
        builder.finalize(),
        Err(Error::MissingField("client_name"))
    ));
}

#[test]
fn only_client_name_gets_defaults() {
    let mut builder = App::builder();
    builder.client_name("solo");
    let app = builder.build().unwrap();
    assert_eq!(app.client_name, "solo");
    assert_eq!(app.redirect_uris, "urn:ietf:wg:oauth:2.0:oob");
    assert_eq!(app.redirect_uris, OUT_OF_BAND_REDIRECT);
    assert_eq!(app.scopes, Scopes::Read);
    assert_eq!(app.website, None);
}

#[test]
fn last_write_wins() {
    let mut builder = App::builder();
    builder
        .client_name("first")
        .client_name("second")
        .scopes(Scopes::All)
        .scopes(Scopes::Follow)
        .website("https://a.example")
        .website("https://b.example");
    let app = builder.build().unwrap();
    assert_eq!(app.client_name, "second");
    assert_eq!(app.scopes, Scopes::Follow);
    assert_eq!(app.website, Some("https://b.example".to_string()));
}

#[test]
fn staged_builder_differs_from_fresh_one() {
    let mut builder = App::builder();
    builder.website("https://example.com");
    assert_ne!(builder, AppBuilder::new());
    let mut other = AppBuilder::default();
    other.website("https://example.com");
    assert_eq!(builder, other);
}

#[test]
fn app_equality_compares_every_field() {
    let a = App {
        client_name: "x".to_string(),
        redirect_uris: "y".to_string(),
        scopes: Scopes::Read,
        website: Some("w".to_string()),
    };
    let mut b = a.clone();
    assert_eq!(a, b);
    b.website = None;
    assert_ne!(a, b);
    let mut c = a.clone();
    c.scopes = Scopes::Write;
    assert_ne!(a, c);
}

#[test]
fn default_app_is_empty_with_read_scope() {
    let app = App::default();
    assert_eq!(app.client_name, "");
    assert_eq!(app.redirect_uris, "");
    assert_eq!(app.scopes(), Scopes::Read);
    assert_eq!(app.website, None);
}
