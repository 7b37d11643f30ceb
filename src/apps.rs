//! The application descriptor, its permission scopes and its builder.
use vstd::prelude::*;

use vstd::std_specs::cmp::PartialEqSpec;

use crate::errors::{Error, Result};

verus! {

/// Permission scope of the application: the seven combinations of the
/// `read`, `write` and `follow` permissions.
#[derive(Debug, Clone, Copy, PartialEq, Eq, Structural)]
pub enum Scopes {
    /// All permissions, equivalent to `read write follow`.
    All,
    /// Only permission to add and remove followers.
    Follow,
    /// Read only permissions.
    Read,
    /// Read and follow permissions.
    ReadFollow,
    /// Read and write permissions.
    ReadWrite,
    /// Write only permissions.
    Write,
    /// Write and follow permissions.
    WriteFollow,
}

impl Scopes {
    /// The URL-ready form of the scope: its words joined by `%20`.
    pub open spec fn encoding(self) -> Seq<char> {
        match self {
            Scopes::All => "read%20write%20follow"@,
            Scopes::Follow => "follow"@,
            Scopes::Read => "read"@,
            Scopes::ReadFollow => "read%20follow"@,
            Scopes::ReadWrite => "read%20write"@,
            Scopes::Write => "write"@,
            Scopes::WriteFollow => "write%20follow"@,
        }
    }

    /// The name of the scope in a structured payload: its words joined by
    /// a space.
    pub open spec fn wire_words(self) -> Seq<char> {
        match self {
            Scopes::All => "read write follow"@,
            Scopes::Follow => "follow"@,
            Scopes::Read => "read"@,
            Scopes::ReadFollow => "read follow"@,
            Scopes::ReadWrite => "read write"@,
            Scopes::Write => "write"@,
            Scopes::WriteFollow => "write follow"@,
        }
    }

    /// Text of the scope as it goes into a URL (`read%20write` for
    /// `ReadWrite`).
    pub fn encode(&self) -> (r: String)
        ensures
            r@ == self.encoding(),
    {
        let s: &str = match self {
            Scopes::All => "read%20write%20follow",
            Scopes::Follow => "follow",
            Scopes::Read => "read",
            Scopes::ReadFollow => "read%20follow",
            Scopes::ReadWrite => "read%20write",
            Scopes::Write => "write",
            Scopes::WriteFollow => "write%20follow",
        };
        s.to_owned()
    }

    /// Text of the scope in a structured payload (`read write` for
    /// `ReadWrite`).
    pub fn wire_name(&self) -> (r: String)
        ensures
            r@ == self.wire_words(),
    {
        let s: &str = match self {
            Scopes::All => "read write follow",
            Scopes::Follow => "follow",
            Scopes::Read => "read",
            Scopes::ReadFollow => "read follow",
            Scopes::ReadWrite => "read write",
            Scopes::Write => "write",
            Scopes::WriteFollow => "write follow",
        };
        s.to_owned()
    }
}

/// No two scopes share an encoding, so the text names the scope.
pub proof fn lemma_encoding_one_to_one(a: Scopes, b: Scopes)
    requires
        a.encoding() == b.encoding(),
    ensures
        a == b,
{
    reveal_strlit("read%20write%20follow");
    reveal_strlit("follow");
    reveal_strlit("read");
    reveal_strlit("read%20follow");
    reveal_strlit("read%20write");
    reveal_strlit("write");
    reveal_strlit("write%20follow");
    assert("read%20write%20follow"@.len() == 21);
    assert("follow"@.len() == 6);
    assert("read"@.len() == 4);
    assert("read%20follow"@.len() == 13);
    assert("read%20write"@.len() == 12);
    assert("write"@.len() == 5);
    assert("write%20follow"@.len() == 14);
}

impl Default for Scopes {
    /// `Read`, the narrowest scope.
    fn default() -> (r: Scopes)
        ensures
            r == Scopes::Read,
    {
        Scopes::Read
    }
}

/// Redirect target used when the application has no web callback: the
/// out-of-band sentinel.
pub const OUT_OF_BAND_REDIRECT: &'static str = "urn:ietf:wg:oauth:2.0:oob";

/// What a descriptor holds, as mathematical values.
pub ghost struct AppView {
    pub client_name: Seq<char>,
    pub redirect_uris: Seq<char>,
    pub scopes: Scopes,
    pub website: Option<Seq<char>>,
}

/// What a builder has staged so far, as mathematical values.
pub ghost struct AppBuilderView {
    pub client_name: Option<Seq<char>>,
    pub redirect_uris: Option<Seq<char>>,
    pub scopes: Option<Scopes>,
    pub website: Option<Seq<char>>,
}

/// The view of an optional string.
pub open spec fn opt_view(o: Option<String>) -> Option<Seq<char>> {
    match o {
        Some(s) => Some(s@),
        None => None,
    }
}

/// Whether two optional strings hold the same text, or are both absent.
fn opt_eq(a: &Option<String>, b: &Option<String>) -> (r: bool)
    ensures
        r == (opt_view(*a) == opt_view(*b)),
{
    match (a, b) {
        (Some(x), Some(y)) => *x == *y,
        (None, None) => true,
        _ => false,
    }
}

/// An application that can be registered with a server: a finished,
/// validated registration request.
#[derive(Debug, Clone)]
pub struct App {
    /// Name shown to the user who decides whether to grant permission.
    pub client_name: String,
    /// Where the user is sent after authorization.
    pub redirect_uris: String,
    /// Permissions the application asks for.
    pub scopes: Scopes,
    /// Homepage of the application; absent means it is left out of the
    /// request.
    pub website: Option<String>,
}

impl View for App {
    type V = AppView;

    open spec fn view(&self) -> AppView {
        AppView {
            client_name: self.client_name@,
            redirect_uris: self.redirect_uris@,
            scopes: self.scopes,
            website: opt_view(self.website),
        }
    }
}

impl PartialEq for App {
    fn eq(&self, o: &App) -> (r: bool) {
        self.client_name == o.client_name && self.redirect_uris == o.redirect_uris
            && self.scopes == o.scopes && opt_eq(&self.website, &o.website)
    }
}

impl vstd::std_specs::cmp::PartialEqSpecImpl for App {
    open spec fn obeys_eq_spec() -> bool {
        true
    }

    open spec fn eq_spec(&self, o: &App) -> bool {
        self@ == o@
    }
}

impl Default for App {
    /// An application with empty name and redirect, `Read` scope and no
    /// website.
    fn default() -> (r: App)
        ensures
            r@ == (AppView {
                client_name: Seq::empty(),
                redirect_uris: Seq::empty(),
                scopes: Scopes::Read,
                website: None,
            }),
    {
        App {
            client_name: String::new(),
            redirect_uris: String::new(),
            scopes: Scopes::Read,
            website: None,
        }
    }
}

impl App {
    /// A builder with nothing staged.
    pub fn builder() -> (r: AppBuilder)
        ensures
            r.is_fresh(),
    {
        AppBuilder::new()
    }

    /// The permissions the application asks for.
    pub fn scopes(&self) -> (r: Scopes)
        ensures
            r == self.scopes,
    {
        self.scopes
    }
}

/// Stages the fields of an [`App`] one by one, then validates them.
#[derive(Debug, Clone)]
pub struct AppBuilder {
    client_name: Option<String>,
    redirect_uris: Option<String>,
    scopes: Option<Scopes>,
    website: Option<String>,
}

impl View for AppBuilder {
    type V = AppBuilderView;

    closed spec fn view(&self) -> AppBuilderView {
        AppBuilderView {
            client_name: opt_view(self.client_name),
            redirect_uris: opt_view(self.redirect_uris),
            scopes: self.scopes,
            website: opt_view(self.website),
        }
    }
}

impl PartialEq for AppBuilder {
    fn eq(&self, o: &AppBuilder) -> (r: bool) {
        opt_eq(&self.client_name, &o.client_name) && opt_eq(&self.redirect_uris, &o.redirect_uris)
            && self.scopes == o.scopes && opt_eq(&self.website, &o.website)
    }
}

impl vstd::std_specs::cmp::PartialEqSpecImpl for AppBuilder {
    open spec fn obeys_eq_spec() -> bool {
        true
    }

    open spec fn eq_spec(&self, o: &AppBuilder) -> bool {
        self@ == o@
    }
}

impl Default for AppBuilder {
    /// A builder with nothing staged.
    fn default() -> (r: AppBuilder)
        ensures
            r.is_fresh(),
    {
        AppBuilder { client_name: None, redirect_uris: None, scopes: None, website: None }
    }
}

impl AppBuilder {
    /// Nothing has been staged.
    pub open spec fn is_fresh(&self) -> bool {
        self@ == AppBuilderView {
            client_name: None,
            redirect_uris: None,
            scopes: None,
            website: None,
        }
    }

    /// What finalizing the staged fields gives: `None` when no client name
    /// was given, else the descriptor with the defaults filled in.
    pub open spec fn built(&self) -> Option<AppView> {
        match self@.client_name {
            None => None,
            Some(name) => Some(
                AppView {
                    client_name: name,
                    redirect_uris: match self@.redirect_uris {
                        Some(u) => u,
                        None => OUT_OF_BAND_REDIRECT@,
                    },
                    scopes: match self@.scopes {
                        Some(sc) => sc,
                        None => Scopes::Read,
                    },
                    website: self@.website,
                },
            ),
        }
    }

    /// A builder with nothing staged.
    pub fn new() -> (r: AppBuilder)
        ensures
            r.is_fresh(),
    {
        AppBuilder::default()
    }

    /// Name of the application, displayed when the user decides whether to
    /// grant permission. It must be given before the builder is built.
    pub fn client_name(&mut self, name: &str) -> (r: &mut AppBuilder)
        ensures
            r@ == (AppBuilderView { client_name: Some(name@), ..old(self)@ }),
            *final(r) == *final(self),
    {
        self.client_name = Some(name.to_owned());
        self
    }

    /// Where the user is sent after authorization; by default the
    /// out-of-band sentinel.
    pub fn redirect_uris(&mut self, uris: &str) -> (r: &mut AppBuilder)
        ensures
            r@ == (AppBuilderView { redirect_uris: Some(uris@), ..old(self)@ }),
            *final(r) == *final(self),
    {
        self.redirect_uris = Some(uris.to_owned());
        self
    }

    /// Permission scope of the application; by default `Read`.
    pub fn scopes(&mut self, scopes: Scopes) -> (r: &mut AppBuilder)
        ensures
            r@ == (AppBuilderView { scopes: Some(scopes), ..old(self)@ }),
            *final(r) == *final(self),
    {
        self.scopes = Some(scopes);
        self
    }

    /// URL of the homepage of the application.
    pub fn website(&mut self, website: &str) -> (r: &mut AppBuilder)
        ensures
            r@ == (AppBuilderView { website: Some(website@), ..old(self)@ }),
            *final(r) == *final(self),
    {
        self.website = Some(website.to_owned());
        self
    }

    /// Turns the staged fields into an [`App`], filling in the default
    /// redirect and scope. Fails when no client name was given.
    pub fn build(self) -> (r: Result<App>)
        ensures
            self.built() is None <==> r is Err,
            r matches Err(Error::MissingField(f)) ==> f@ == "client_name"@,
            r matches Ok(app) ==> self.built() == Some(app@),
    {
        let client_name = match self.client_name {
            Some(name) => name,
            None => return Err(Error::MissingField("client_name")),
        };
        let redirect_uris = match self.redirect_uris {
            Some(uris) => uris,
            None => OUT_OF_BAND_REDIRECT.to_owned(),
        };
        let scopes = match self.scopes {
            Some(scopes) => scopes,
            None => Scopes::Read,
        };
        Ok(App { client_name, redirect_uris, scopes, website: self.website })
    }
}

/// A value that can be turned into a finished [`App`]: either a builder,
/// which is validated, or an `App` itself, which is passed through.
pub trait Finalizable: Sized {
    /// What finalizing gives: `None` when the client name is missing.
    spec fn finalized(&self) -> Option<AppView>;

    /// Turns the value into an [`App`].
    fn finalize(self) -> (r: Result<App>)
        ensures
            self.finalized() is None <==> r is Err,
            r matches Err(Error::MissingField(f)) ==> f@ == "client_name"@,
            r matches Ok(app) ==> self.finalized() == Some(app@),
    ;
}

impl Finalizable for App {
    /// An `App` is already finished.
    open spec fn finalized(&self) -> Option<AppView> {
        Some(self@)
    }

    fn finalize(self) -> (r: Result<App>) {
        Ok(self)
    }
}

impl Finalizable for AppBuilder {
    open spec fn finalized(&self) -> Option<AppView> {
        self.built()
    }

    fn finalize(self) -> (r: Result<App>) {
        self.build()
    }
}

/// Two builders with nothing staged are equal.
pub proof fn lemma_fresh_builders_equal(a: AppBuilder, b: AppBuilder)
    requires
        a.is_fresh(),
        b.is_fresh(),
    ensures
        a.eq_spec(&b),
{
}

/// Without a client name a builder never finalizes, whatever else it holds.
pub proof fn lemma_client_name_required(b: AppBuilder)
    requires
        b@.client_name is None,
    ensures
        b.finalized() is None,
{
}

/// With only a client name staged, finalizing gives the out-of-band
/// redirect, the `Read` scope and no website.
pub proof fn lemma_defaults_filled_in(b: AppBuilder, name: Seq<char>)
    requires
        b@ == (AppBuilderView {
            client_name: Some(name),
            redirect_uris: None,
            scopes: None,
            website: None,
        }),
    ensures
        b.finalized() == Some(
            AppView {
                client_name: name,
                redirect_uris: OUT_OF_BAND_REDIRECT@,
                scopes: Scopes::Read,
                website: None,
            },
        ),
{
}

/// Once a client name is staged, finalizing succeeds and every staged field
/// comes out exactly as it was given.
pub proof fn lemma_staged_fields_kept(b: AppBuilder)
    requires
        b@.client_name is Some,
    ensures
        b.finalized() is Some,
        b.finalized()->0.client_name == b@.client_name->0,
        b@.redirect_uris matches Some(u) ==> b.finalized()->0.redirect_uris == u,
        b@.scopes matches Some(sc) ==> b.finalized()->0.scopes == sc,
        b.finalized()->0.website == b@.website,
{
}

/// Finalizing a finished application gives an equal application.
pub proof fn lemma_app_passes_through(app: App)
    ensures
        app.finalized() == Some(app@),
{
}

} // verus!
