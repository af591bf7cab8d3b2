//! Content providers: which provider serves a url, and how a `lib:` url of a library is
//! resolved, through the library search path, into a url where its content can be found.
use vstd::prelude::*;
use simpath::Simpath;
use crate::text::concat;

verus! {

/// A search path of directories, read from an environment variable and added to.
#[verifier::external_type_specification]
#[verifier::external_body]
pub struct ExSimpath(Simpath);

/// A url as plain text parts: its scheme, its host if it has one, its path, and its text.
pub struct UrlParts {
    pub scheme: String,
    pub host: Option<String>,
    pub path: String,
    pub text: String,
}

/// The model of the parts of a url.
pub struct UrlPartsModel {
    pub scheme: Seq<char>,
    pub host: Option<Seq<char>>,
    pub path: Seq<char>,
    pub text: Seq<char>,
}

impl View for UrlParts {
    type V = UrlPartsModel;

    open spec fn view(&self) -> UrlPartsModel {
        UrlPartsModel {
            scheme: self.scheme@,
            host: match self.host {
                Some(h) => Some(h@),
                None => None,
            },
            path: self.path@,
            text: self.text@,
        }
    }
}

/// The parts of the url that `url::Url::parse` makes of a text, if it parses.
pub uninterp spec fn url_parts(text: Seq<char>) -> Option<UrlPartsModel>;

/// The text of the url that `url::Url::join` makes of a base url and a relative reference,
/// if both parse.
pub uninterp spec fn url_join(base: Seq<char>, relative: Seq<char>) -> Option<Seq<char>>;

/// The text of the url that `url::Url::from_directory_path` makes of a path, if it is
/// absolute.
pub uninterp spec fn directory_url(path: Seq<char>) -> Option<Seq<char>>;

/// The text of the path that `std::path::Path::join` makes of a path and another.
pub uninterp spec fn path_join(base: Seq<char>, other: Seq<char>) -> Seq<char>;

/// The last component of a path, as `std::path::Path::file_name` gives it, if it has one.
pub uninterp spec fn path_file_name(path: Seq<char>) -> Option<Seq<char>>;

/// The file name of a path without its extension, as `std::path::Path::file_stem` gives it,
/// if it has a file name.
pub uninterp spec fn path_file_stem(path: Seq<char>) -> Option<Seq<char>>;

/// The path with the extension of its file name set, as `std::path::Path::with_extension`
/// makes it.
pub uninterp spec fn path_with_extension(path: Seq<char>, extension: Seq<char>) -> Seq<char>;

/// The text of the url that `url::Url::from_file_path` makes of a path, if it is absolute.
pub uninterp spec fn file_url(path: Seq<char>) -> Option<Seq<char>>;

/// Calls `url::Url::parse` and, when the text parses, reads the scheme, host, path and text
/// of the url: the result is `url_parts` of the text.
#[verifier::external_body]
pub(crate) fn parse_url(text: &str) -> (r: Option<UrlParts>)
    ensures
        (match r {
            Some(p) => Some(p@),
            None => None,
        }) == url_parts(text@),
{
    match url::Url::parse(text) {
        Ok(u) => Some(UrlParts {
            scheme: u.scheme().to_string(),
            host: u.host_str().map(|h| h.to_string()),
            path: u.path().to_string(),
            text: u.to_string(),
        }),
        Err(_) => None,
    }
}

/// Calls `url::Url::join` on the url that `base` parses as: the result is `url_join` of the
/// two texts.
#[verifier::external_body]
fn join_url(base: &str, relative: &str) -> (r: Option<String>)
    ensures
        (match r {
            Some(t) => Some(t@),
            None => None,
        }) == url_join(base@, relative@),
{
    match url::Url::parse(base) {
        Ok(u) => u.join(relative).ok().map(|j| j.to_string()),
        Err(_) => None,
    }
}

/// Calls `url::Url::from_directory_path`: the result is `directory_url` of the path.
#[verifier::external_body]
fn url_of_directory(path: &str) -> (r: Option<String>)
    ensures
        (match r {
            Some(t) => Some(t@),
            None => None,
        }) == directory_url(path@),
{
    url::Url::from_directory_path(path).ok().map(|u| u.to_string())
}

/// Calls `std::path::Path::join`: the result is `path_join` of the two paths.
#[verifier::external_body]
fn join_path(base: &str, other: &str) -> (r: String)
    ensures
        r@ == path_join(base@, other@),
{
    std::path::Path::new(base).join(other).to_string_lossy().into_owned()
}

/// Calls `std::path::Path::file_name`: the result is `path_file_name` of the path.
#[verifier::external_body]
fn file_name_of(path: &str) -> (r: Option<String>)
    ensures
        opt_text(r) == path_file_name(path@),
{
    std::path::Path::new(path).file_name().and_then(|n| n.to_str()).map(|n| n.to_string())
}

/// Calls `std::path::Path::file_stem`: the result is `path_file_stem` of the path.
#[verifier::external_body]
fn file_stem_of(path: &str) -> (r: Option<String>)
    ensures
        opt_text(r) == path_file_stem(path@),
{
    std::path::Path::new(path).file_stem().and_then(|n| n.to_str()).map(|n| n.to_string())
}

/// Calls `std::path::Path::with_extension`: the result is `path_with_extension` of the path
/// and the extension. The extension holds no path separator, on which `set_extension`, which
/// it uses, panics.
#[verifier::external_body]
fn with_extension(path: &str, extension: &str) -> (r: String)
    requires
        forall|i: int| 0 <= i < extension@.len() ==> extension@[i] != '/',
    ensures
        r@ == path_with_extension(path@, extension@),
{
    std::path::Path::new(path).with_extension(extension).to_string_lossy().into_owned()
}

/// Calls `url::Url::from_file_path`: the result is `file_url` of the path.
#[verifier::external_body]
fn url_of_file(path: &str) -> (r: Option<String>)
    ensures
        opt_text(r) == file_url(path@),
{
    url::Url::from_file_path(path).ok().map(|u| u.to_string())
}

/// An entry found on a search path, by its path as text.
pub enum FoundEntry {
    File(String),
    Directory(String),
}

/// The model of an entry found on a search path.
pub enum FoundModel {
    File(Seq<char>),
    Directory(Seq<char>),
}

impl View for FoundEntry {
    type V = FoundModel;

    open spec fn view(&self) -> FoundModel {
        match self {
            FoundEntry::File(p) => FoundModel::File(p@),
            FoundEntry::Directory(p) => FoundModel::Directory(p@),
        }
    }
}

/// The model of what a search found, if anything.
pub open spec fn opt_found(found: Option<FoundEntry>) -> Option<FoundModel> {
    match found {
        Some(f) => Some(f@),
        None => None,
    }
}

/// What a search of the search path for `name` can find: nothing, or a file entry whose path
/// is that of a directory of the search path joined with `name`.
pub open spec fn found_for(name: Seq<char>, found: Option<FoundModel>) -> bool {
    match found {
        None => true,
        Some(FoundModel::File(p)) => exists|dir: Seq<char>| p == path_join(dir, name),
        Some(FoundModel::Directory(_)) => false,
    }
}

/// Calls `simpath::Simpath::find`, which looks for an entry of the name in the directories of
/// the search path, on disk. Which directory holds it, if any, depends on what is on disk, so
/// only this is stated: what is found is a file entry (a search for any kind of entry reports
/// each one as a file) whose path is a directory of the search path joined with the name.
/// The path found is returned as text (lossily, where it is not valid UTF-8).
#[verifier::external_body]
fn find_in_search_path(search_path: &Simpath, name: &str) -> (r: Option<FoundEntry>)
    ensures
        found_for(name@, opt_found(r)),
{
    match search_path.find(name) {
        Ok(simpath::FoundType::File(p)) => Some(FoundEntry::File(p.to_string_lossy().into_owned())),
        Ok(simpath::FoundType::Directory(p)) => Some(
            FoundEntry::Directory(p.to_string_lossy().into_owned()),
        ),
        Err(_) => None,
    }
}

/// Why content could not be provided.
#[derive(Debug, PartialEq)]
pub enum ProviderError {
    /// The text is not a url.
    InvalidUrl(String),
    /// The url of a library has no host part to name the library.
    NoLibraryName(String),
    /// No provider serves urls of this scheme.
    UnknownScheme(String),
    /// The library of this url was not found on the library search path.
    LibraryNotFound(String),
    /// The location of the library or module could not be made into a url.
    InvalidPath(String),
    /// The url names no module of its library: its path is empty, or has no file name.
    NoModulePath(String),
    /// No definition of the module of this url exists in its library.
    ModuleNotFound(String),
}

/// The model of a provider error, each text as a sequence of characters.
pub enum ProviderErrorModel {
    InvalidUrl(Seq<char>),
    NoLibraryName(Seq<char>),
    UnknownScheme(Seq<char>),
    LibraryNotFound(Seq<char>),
    InvalidPath(Seq<char>),
    NoModulePath(Seq<char>),
    ModuleNotFound(Seq<char>),
}

impl View for ProviderError {
    type V = ProviderErrorModel;

    open spec fn view(&self) -> ProviderErrorModel {
        match self {
            ProviderError::InvalidUrl(s) => ProviderErrorModel::InvalidUrl(s@),
            ProviderError::NoLibraryName(s) => ProviderErrorModel::NoLibraryName(s@),
            ProviderError::UnknownScheme(s) => ProviderErrorModel::UnknownScheme(s@),
            ProviderError::LibraryNotFound(s) => ProviderErrorModel::LibraryNotFound(s@),
            ProviderError::InvalidPath(s) => ProviderErrorModel::InvalidPath(s@),
            ProviderError::NoModulePath(s) => ProviderErrorModel::NoModulePath(s@),
            ProviderError::ModuleNotFound(s) => ProviderErrorModel::ModuleNotFound(s@),
        }
    }
}

/// The model of an optional text.
pub open spec fn opt_text(t: Option<String>) -> Option<Seq<char>> {
    match t {
        Some(s) => Some(s@),
        None => None,
    }
}

/// The model of a resolution: a url and the library reference, if any; or an error.
pub open spec fn resolution_model(r: Result<(String, Option<String>), ProviderError>) -> Result<
    (Seq<char>, Option<Seq<char>>),
    ProviderErrorModel,
> {
    match r {
        Ok(v) => Ok((v.0@, opt_text(v.1))),
        Err(e) => Err(e@),
    }
}

/// The model of the choice of a provider.
pub open spec fn kind_model(r: Result<ProviderKind, ProviderError>) -> Result<
    ProviderKind,
    ProviderErrorModel,
> {
    match r {
        Ok(k) => Ok(k),
        Err(e) => Err(e@),
    }
}

/// The model of a target: the provider that serves a url, the url, and a library reference.
pub open spec fn target_model(r: Result<(ProviderKind, String, Option<String>), ProviderError>) -> Result<
    (ProviderKind, Seq<char>, Option<Seq<char>>),
    ProviderErrorModel,
> {
    match r {
        Ok(v) => Ok((v.0, v.1@, opt_text(v.2))),
        Err(e) => Err(e@),
    }
}

/// The kinds of providers that serve content.
#[derive(Debug, PartialEq, Eq, Clone, Copy)]
pub enum ProviderKind {
    /// Serves `file:` urls.
    File,
    /// Serves `http:` and `https:` urls.
    Http,
}

/// The provider for urls of a scheme: the file provider for `file`, the http provider for
/// `http` and `https`, and none for any other.
pub open spec fn provider_for(scheme: Seq<char>) -> Option<ProviderKind> {
    if scheme == seq!['f', 'i', 'l', 'e'] {
        Some(ProviderKind::File)
    } else if scheme == seq!['h', 't', 't', 'p'] || scheme == seq!['h', 't', 't', 'p', 's'] {
        Some(ProviderKind::Http)
    } else {
        None
    }
}

/// The provider for urls of a scheme, or the error that no provider serves it.
pub open spec fn scheme_provider(scheme: Seq<char>) -> Result<ProviderKind, ProviderErrorModel> {
    match provider_for(scheme) {
        Some(k) => Ok(k),
        None => Err(ProviderErrorModel::UnknownScheme(scheme)),
    }
}

/// The scheme `lib` of the urls of library modules.
pub open spec fn lib_scheme() -> Seq<char> {
    seq!['l', 'i', 'b']
}

/// `s` without the `/` characters it starts with.
pub open spec fn trim_leading_slashes(s: Seq<char>) -> Seq<char>
    decreases s.len(),
{
    if s.len() > 0 && s[0] == '/' {
        trim_leading_slashes(s.subrange(1, s.len() as int))
    } else {
        s
    }
}

/// Removes the `/` characters a text starts with, as `trim_start_matches('/')` does.
pub fn trim_start_slashes(s: &str) -> (r: String)
    ensures
        r@ == trim_leading_slashes(s@),
{
    let n = s.unicode_len();
    let mut i: usize = 0;
    assert(s@.subrange(0, n as int) =~= s@);
    while i < n && s.get_char(i) == '/'
        invariant
            n == s@.len(),
            i <= n,
            trim_leading_slashes(s@) == trim_leading_slashes(s@.subrange(i as int, n as int)),
        decreases n - i,
    {
        proof {
            let rest = s@.subrange(i as int, n as int);
            assert(rest.subrange(1, rest.len() as int) =~= s@.subrange(i + 1, n as int));
        }
        i = i + 1;
    }
    let r = s.substring_char(i, n);
    proof {
        if i == n {
            assert(s@.subrange(i as int, n as int).len() == 0);
        }
    }
    String::from_str(r)
}

/// The reference to a module of a library: the library's name, `/`, and the path under it.
pub open spec fn lib_reference(lib_name: Seq<char>, path_under_lib: Seq<char>) -> Seq<char> {
    lib_name + seq!['/'] + path_under_lib
}

/// How a `lib:` url resolves, given what the search for its library found: without a host
/// there is no library name; when the library was found as a file entry, the url of the
/// directory of the module under the library's root, with the library reference; when that
/// path is no absolute path, it cannot be a url; when nothing was found, the library is not
/// found.
pub open spec fn lib_resolution(url: UrlPartsModel, found: Option<FoundModel>) -> Result<
    (Seq<char>, Option<Seq<char>>),
    ProviderErrorModel,
> {
    match url.host {
        None => Err(ProviderErrorModel::NoLibraryName(url.text)),
        Some(lib_name) => {
            let under = trim_leading_slashes(url.path);
            match found {
                Some(FoundModel::File(root)) => match directory_url(path_join(root, under)) {
                    Some(u) => Ok((u, Some(lib_reference(lib_name, under)))),
                    None => Err(ProviderErrorModel::InvalidPath(path_join(root, under))),
                },
                _ => Err(ProviderErrorModel::LibraryNotFound(url.text)),
            }
        },
    }
}

/// What the search for the library of a url can have found: what a search for its host can
/// find, and nothing where it has no host (no search is made).
pub open spec fn searched(url: UrlPartsModel, found: Option<FoundModel>) -> bool {
    match url.host {
        Some(h) => found_for(h, found),
        None => found is None,
    }
}

/// The provider that serves a url of a scheme, the url and the library reference; or the
/// error that no provider serves the scheme.
pub open spec fn served(scheme: Seq<char>, url: Seq<char>, lib_ref: Option<Seq<char>>) -> Result<
    (ProviderKind, Seq<char>, Option<Seq<char>>),
    ProviderErrorModel,
> {
    match provider_for(scheme) {
        Some(k) => Ok((k, url, lib_ref)),
        None => Err(ProviderErrorModel::UnknownScheme(scheme)),
    }
}

/// The target of a url: a `lib:` url is first resolved, given what the search for its library
/// found, and the url it resolves to is served by the provider for its scheme; any other url
/// is served, as it parses, by the provider for its scheme.
pub open spec fn target_of(url: Seq<char>, found: Option<FoundModel>) -> Result<
    (ProviderKind, Seq<char>, Option<Seq<char>>),
    ProviderErrorModel,
> {
    match url_parts(url) {
        None => Err(ProviderErrorModel::InvalidUrl(url)),
        Some(p) => if p.scheme == lib_scheme() {
            match lib_resolution(p, found) {
                Err(e) => Err(e),
                Ok(v) => match url_parts(v.0) {
                    None => Err(ProviderErrorModel::InvalidUrl(v.0)),
                    Some(q) => served(q.scheme, v.0, v.1),
                },
            }
        } else {
            served(p.scheme, p.text, None)
        },
    }
}

/// What the search for the library of a url can have found: nothing unless it is a `lib:`
/// url, and then what a search for its library can find.
pub open spec fn searched_for(url: Seq<char>, found: Option<FoundModel>) -> bool {
    match url_parts(url) {
        Some(p) => if p.scheme == lib_scheme() {
            searched(p, found)
        } else {
            found is None
        },
        None => found is None,
    }
}

fn is_lib_scheme(scheme: &str) -> (b: bool)
    ensures
        b == (scheme@ == lib_scheme()),
{
    proof {
        reveal_strlit("lib");
        assert("lib"@ =~= lib_scheme());
    }
    String::from_str(scheme) == String::from_str("lib")
}

/// Reads the content a provider finds at a url.
pub struct MetaProvider {
    lib_search_path: Simpath,
}

impl MetaProvider {
    /// A provider that looks for libraries on the given search path.
    pub fn new(lib_search_path: Simpath) -> (p: MetaProvider)
        ensures
            p.search_path() == lib_search_path,
    {
        MetaProvider { lib_search_path }
    }

    /// The search path for libraries.
    pub closed spec fn search_path(&self) -> Simpath {
        self.lib_search_path
    }

    /// Determines which provider serves a url, by its scheme.
    pub fn get_provider(&self, scheme: &str) -> (r: Result<ProviderKind, ProviderError>)
        ensures
            kind_model(r) == scheme_provider(scheme@),
    {
        proof {
            reveal_strlit("file");
            reveal_strlit("http");
            reveal_strlit("https");
            assert("file"@ =~= seq!['f', 'i', 'l', 'e']);
            assert("http"@ =~= seq!['h', 't', 't', 'p']);
            assert("https"@ =~= seq!['h', 't', 't', 'p', 's']);
        }
        let file = String::from_str("file");
        let http = String::from_str("http");
        let https = String::from_str("https");
        let s = String::from_str(scheme);
        if s == file {
            Ok(ProviderKind::File)
        } else if s == http || s == https {
            Ok(ProviderKind::Http)
        } else {
            Err(ProviderError::UnknownScheme(s))
        }
    }

    /// Determines which provider reads the content at a url, by the scheme of the url.
    pub fn content_provider(&self, url: &str) -> (r: Result<ProviderKind, ProviderError>)
        ensures
            kind_model(r) == (match url_parts(url@) {
                None => Err(ProviderErrorModel::InvalidUrl(url@)),
                Some(p) => scheme_provider(p.scheme),
            }),
    {
        match parse_url(url) {
            Some(parts) => self.get_provider(parts.scheme.as_str()),
            None => Err(ProviderError::InvalidUrl(String::from_str(url))),
        }
    }

    /// Resolves the url of a module of a library, `lib://<library>/<path>`, given what the
    /// search for the library found: the url of the directory of the module under the
    /// library's root, with the library reference `<library>/<path>`.
    pub fn resolve_found(parts: &UrlParts, found: Option<FoundEntry>) -> (r: Result<
        (String, Option<String>),
        ProviderError,
    >)
        ensures
            resolution_model(r) == lib_resolution(parts@, opt_found(found)),
    {
        let lib_name = match &parts.host {
            Some(h) => h,
            None => return Err(ProviderError::NoLibraryName(parts.text.clone())),
        };
        let path_under_lib = trim_start_slashes(parts.path.as_str());
        proof {
            reveal_strlit("/");
        }
        let lib_ref = concat(concat(lib_name.as_str(), "/").as_str(), path_under_lib.as_str());
        assert(lib_ref@ =~= lib_reference(lib_name@, path_under_lib@));
        match found {
            Some(FoundEntry::File(lib_root_path)) => {
                let lib_path = join_path(lib_root_path.as_str(), path_under_lib.as_str());
                match url_of_directory(lib_path.as_str()) {
                    Some(location) => Ok((location, Some(lib_ref))),
                    None => Err(ProviderError::InvalidPath(lib_path)),
                }
            },
            _ => Err(ProviderError::LibraryNotFound(parts.text.clone())),
        }
    }

    /// Resolves the url of a module of a library, `lib://<library>/<path>`: the library is
    /// looked for on the search path, by the url's host, and the url resolves as
    /// `resolve_found` resolves it with what was found.
    pub fn resolve_lib_url(&self, url: &str) -> (r: Result<(String, Option<String>), ProviderError>)
        ensures
            (r matches Err(ProviderError::InvalidUrl(_))) <==> url_parts(url@) is None,
            url_parts(url@) is None ==> resolution_model(r) == Err::<
                (Seq<char>, Option<Seq<char>>),
                ProviderErrorModel,
            >(ProviderErrorModel::InvalidUrl(url@)),
            (r matches Err(ProviderError::NoLibraryName(_))) <==> (url_parts(url@) matches Some(p)
                && p.host is None),
            url_parts(url@) matches Some(p) ==> exists|found: Option<FoundModel>|
                #[trigger] searched(p, found) && resolution_model(r) == lib_resolution(p, found),
    {
        let parts = match parse_url(url) {
            Some(p) => p,
            None => return Err(ProviderError::InvalidUrl(String::from_str(url))),
        };
        let found = match &parts.host {
            Some(h) => find_in_search_path(&self.lib_search_path, h.as_str()),
            None => None,
        };
        let ghost g = opt_found(found);
        let r = Self::resolve_found(&parts, found);
        assert(searched(parts@, g) && resolution_model(r) == lib_resolution(parts@, g));
        r
    }

    /// The provider that serves a url, the url it serves and the library reference, if any:
    /// a `lib:` url is resolved first, through the library search path, and the url it
    /// resolves to is served; any other url is served as it parses, without a reference.
    pub fn resolve_target(&self, url: &str) -> (r: Result<
        (ProviderKind, String, Option<String>),
        ProviderError,
    >)
        ensures
            url_parts(url@) is None ==> target_model(r) == Err::<
                (ProviderKind, Seq<char>, Option<Seq<char>>),
                ProviderErrorModel,
            >(ProviderErrorModel::InvalidUrl(url@)),
            (match url_parts(url@) {
                Some(p) => p.scheme != lib_scheme() ==> target_model(r) == served(
                    p.scheme,
                    p.text,
                    None,
                ),
                None => true,
            }),
            exists|found: Option<FoundModel>| #[trigger]
                searched_for(url@, found) && target_model(r) == target_of(url@, found),
    {
        let parts = match parse_url(url) {
            Some(p) => p,
            None => {
                let r = Err(ProviderError::InvalidUrl(String::from_str(url)));
                assert(searched_for(url@, None) && target_model(r) == target_of(url@, None));
                return r;
            },
        };
        if is_lib_scheme(parts.scheme.as_str()) {
            let found = match &parts.host {
                Some(h) => find_in_search_path(&self.lib_search_path, h.as_str()),
                None => None,
            };
            let ghost g = opt_found(found);
            let r = match Self::resolve_found(&parts, found) {
                Err(e) => Err(e),
                Ok((u, lib_ref)) => match parse_url(u.as_str()) {
                    None => Err(ProviderError::InvalidUrl(u)),
                    Some(q) => match self.get_provider(q.scheme.as_str()) {
                        Ok(k) => Ok((k, u, lib_ref)),
                        Err(e) => Err(e),
                    },
                },
            };
            assert(searched_for(url@, g) && target_model(r) == target_of(url@, g));
            r
        } else {
            let r = match self.get_provider(parts.scheme.as_str()) {
                Ok(k) => Ok((k, parts.text, None)),
                Err(e) => Err(e),
            };
            assert(searched_for(url@, None) && target_model(r) == target_of(url@, None));
            r
        }
    }
}

/// The provider of the content of libraries, found through the `FLOW_LIB_PATH` search path.
pub struct LibProvider;

/// Where the definition of a library module is, among the places looked at in turn.
#[derive(Debug, PartialEq, Eq, Clone, Copy)]
pub enum LibCandidate {
    /// The path of the module itself, a file.
    Path,
    /// The default file in the module's directory.
    DefaultFile,
    /// The file in the module's directory named as the directory, with a `toml` extension.
    NamedToml,
    /// The path of the module with a `toml` extension.
    TomlExtension,
    /// None of them exists.
    NotFound,
}

/// The place the definition of a module is found, from what exists: when the module's path
/// exists, the path itself if it is a file, else the default file, else the file named as
/// the directory; when it does not exist, the path with a `toml` extension.
pub open spec fn candidate(
    exists: bool,
    is_dir: bool,
    default_exists: bool,
    named_toml_exists: bool,
    toml_exists: bool,
) -> LibCandidate {
    if exists {
        if !is_dir {
            LibCandidate::Path
        } else if default_exists {
            LibCandidate::DefaultFile
        } else if named_toml_exists {
            LibCandidate::NamedToml
        } else {
            LibCandidate::NotFound
        }
    } else if toml_exists {
        LibCandidate::TomlExtension
    } else {
        LibCandidate::NotFound
    }
}

/// The reference to the module a `lib:` url names, given the file stem of its definition.
pub open spec fn library_reference_spec(url: Seq<char>, file_stem: Seq<char>) -> Option<Seq<char>> {
    match url_parts(url) {
        Some(parts) => match parts.host {
            Some(lib_name) => match url_join(url, seq!['.', '/']) {
                Some(dir) => match url_join(dir, file_stem) {
                    Some(module) => match url_parts(module) {
                        Some(m) => Some(lib_name + m.path),
                        None => None,
                    },
                    None => None,
                },
                None => None,
            },
            None => None,
        },
        None => None,
    }
}

/// The paths where the definition of a library module may be, for a `lib:` url and the root
/// of its library: the module's path, the default file in it, the file in it named as it with
/// a `toml` extension, and the module's path with a `toml` extension; with the url's text and
/// the reference to the module.
pub struct ModulePaths {
    pub url: String,
    pub lib_path: String,
    pub default_path: String,
    pub named_toml_path: String,
    pub toml_path: String,
    pub lib_ref: String,
}

/// The model of the paths of a library module.
pub struct ModulePathsModel {
    pub url: Seq<char>,
    pub lib_path: Seq<char>,
    pub default_path: Seq<char>,
    pub named_toml_path: Seq<char>,
    pub toml_path: Seq<char>,
    pub lib_ref: Seq<char>,
}

impl View for ModulePaths {
    type V = ModulePathsModel;

    open spec fn view(&self) -> ModulePathsModel {
        ModulePathsModel {
            url: self.url@,
            lib_path: self.lib_path@,
            default_path: self.default_path@,
            named_toml_path: self.named_toml_path@,
            toml_path: self.toml_path@,
            lib_ref: self.lib_ref@,
        }
    }
}

/// The extension `toml` of definition files.
pub open spec fn toml_ext() -> Seq<char> {
    seq!['t', 'o', 'm', 'l']
}

/// The paths of the module a `lib:` url names, under the root of its library: the url's path
/// without its first character (its leading `/`) joined to the root, and the paths made from
/// it; the reference to the module is made with the file stem of that path. The url must
/// parse, have a host, a path and a file name at the end of the module's path.
pub open spec fn module_paths_spec(url: Seq<char>, lib_root: Seq<char>, default_filename: Seq<char>) -> Result<
    ModulePathsModel,
    ProviderErrorModel,
> {
    match url_parts(url) {
        None => Err(ProviderErrorModel::InvalidUrl(url)),
        Some(parts) => match parts.host {
            None => Err(ProviderErrorModel::NoLibraryName(parts.text)),
            Some(_) => if parts.path.len() == 0 {
                Err(ProviderErrorModel::NoModulePath(parts.text))
            } else {
                let lib_path = path_join(lib_root, parts.path.subrange(1, parts.path.len() as int));
                match path_file_name(lib_path) {
                    None => Err(ProviderErrorModel::NoModulePath(parts.text)),
                    Some(name) => match path_file_stem(lib_path) {
                        None => Err(ProviderErrorModel::NoModulePath(parts.text)),
                        Some(stem) => match library_reference_spec(url, stem) {
                            None => Err(ProviderErrorModel::NoModulePath(parts.text)),
                            Some(lib_ref) => Ok(
                                ModulePathsModel {
                                    url: parts.text,
                                    lib_path,
                                    default_path: path_join(lib_path, default_filename),
                                    named_toml_path: path_with_extension(
                                        path_join(lib_path, name),
                                        toml_ext(),
                                    ),
                                    toml_path: path_with_extension(lib_path, toml_ext()),
                                    lib_ref,
                                },
                            ),
                        },
                    },
                }
            },
        },
    }
}

/// The model of the paths of a module, or the error.
pub open spec fn paths_model(r: Result<ModulePaths, ProviderError>) -> Result<
    ModulePathsModel,
    ProviderErrorModel,
> {
    match r {
        Ok(m) => Ok(m@),
        Err(e) => Err(e@),
    }
}

/// The path a candidate stands for, if any.
pub open spec fn candidate_path(paths: ModulePathsModel, c: LibCandidate) -> Option<Seq<char>> {
    match c {
        LibCandidate::Path => Some(paths.lib_path),
        LibCandidate::DefaultFile => Some(paths.default_path),
        LibCandidate::NamedToml => Some(paths.named_toml_path),
        LibCandidate::TomlExtension => Some(paths.toml_path),
        LibCandidate::NotFound => None,
    }
}

/// How the url of a library module resolves once the place of its definition is chosen: the
/// `file:` url of that path, with the reference to the module; when no definition exists,
/// the module is not found.
pub open spec fn module_resolution(paths: ModulePathsModel, c: LibCandidate) -> Result<
    (Seq<char>, Option<Seq<char>>),
    ProviderErrorModel,
> {
    match candidate_path(paths, c) {
        None => Err(ProviderErrorModel::ModuleNotFound(paths.url)),
        Some(p) => match file_url(p) {
            Some(u) => Ok((u, Some(paths.lib_ref))),
            None => Err(ProviderErrorModel::InvalidPath(p)),
        },
    }
}

impl LibProvider {
    /// The name of the library a `lib:` url names: its host.
    pub fn library_name(&self, url: &str) -> (r: Result<String, ProviderError>)
        ensures
            (match r {
                Ok(n) => Ok(n@),
                Err(e) => Err(e@),
            }) == (match url_parts(url@) {
                None => Err(ProviderErrorModel::InvalidUrl(url@)),
                Some(p) => match p.host {
                    Some(h) => Ok(h),
                    None => Err(ProviderErrorModel::NoLibraryName(p.text)),
                },
            }),
    {
        match parse_url(url) {
            None => Err(ProviderError::InvalidUrl(String::from_str(url))),
            Some(parts) => match parts.host {
                Some(h) => Ok(h),
                None => Err(ProviderError::NoLibraryName(parts.text)),
            },
        }
    }

    /// The paths where the definition of the module a `lib:` url names may be, under the root
    /// of its library (found on the library search path).
    pub fn module_paths(&self, url: &str, lib_root: &str, default_filename: &str) -> (r: Result<
        ModulePaths,
        ProviderError,
    >)
        ensures
            paths_model(r) == module_paths_spec(url@, lib_root@, default_filename@),
    {
        let parts = match parse_url(url) {
            Some(p) => p,
            None => return Err(ProviderError::InvalidUrl(String::from_str(url))),
        };
        if parts.host.is_none() {
            return Err(ProviderError::NoLibraryName(parts.text));
        }
        let n = parts.path.as_str().unicode_len();
        if n == 0 {
            return Err(ProviderError::NoModulePath(parts.text));
        }
        let under = parts.path.as_str().substring_char(1, n);
        let lib_path = join_path(lib_root, under);
        let name = match file_name_of(lib_path.as_str()) {
            Some(f) => f,
            None => return Err(ProviderError::NoModulePath(parts.text)),
        };
        let stem = match file_stem_of(lib_path.as_str()) {
            Some(f) => f,
            None => return Err(ProviderError::NoModulePath(parts.text)),
        };
        let lib_ref = match self.library_reference(url, stem.as_str()) {
            Some(l) => l,
            None => return Err(ProviderError::NoModulePath(parts.text)),
        };
        proof {
            reveal_strlit("toml");
            assert("toml"@ =~= toml_ext());
        }
        let default_path = join_path(lib_path.as_str(), default_filename);
        let named = join_path(lib_path.as_str(), name.as_str());
        let named_toml_path = with_extension(named.as_str(), "toml");
        let toml_path = with_extension(lib_path.as_str(), "toml");
        Ok(
            ModulePaths {
                url: parts.text,
                lib_path,
                default_path,
                named_toml_path,
                toml_path,
                lib_ref,
            },
        )
    }

    /// The `file:` url of the definition of a library module, at the place chosen, with the
    /// reference to the module; or the error that no definition exists.
    pub fn resolved_url(&self, paths: &ModulePaths, c: LibCandidate) -> (r: Result<
        (String, Option<String>),
        ProviderError,
    >)
        ensures
            resolution_model(r) == module_resolution(paths@, c),
    {
        let path = match c {
            LibCandidate::Path => &paths.lib_path,
            LibCandidate::DefaultFile => &paths.default_path,
            LibCandidate::NamedToml => &paths.named_toml_path,
            LibCandidate::TomlExtension => &paths.toml_path,
            LibCandidate::NotFound => return Err(ProviderError::ModuleNotFound(paths.url.clone())),
        };
        match url_of_file(path.as_str()) {
            Some(u) => Ok((u, Some(paths.lib_ref.clone()))),
            None => Err(ProviderError::InvalidPath(path.clone())),
        }
    }

    /// Chooses where the definition of a library module is, from what exists on disk.
    pub fn choose_candidate(
        &self,
        exists: bool,
        is_dir: bool,
        default_exists: bool,
        named_toml_exists: bool,
        toml_exists: bool,
    ) -> (c: LibCandidate)
        ensures
            c == candidate(exists, is_dir, default_exists, named_toml_exists, toml_exists),
    {
        if exists {
            if !is_dir {
                return LibCandidate::Path;
            }
            if default_exists {
                return LibCandidate::DefaultFile;
            }
            if named_toml_exists {
                return LibCandidate::NamedToml;
            }
            LibCandidate::NotFound
        } else {
            if toml_exists {
                return LibCandidate::TomlExtension;
            }
            LibCandidate::NotFound
        }
    }

    /// The reference to the module a `lib:` url names: the library's name (the url's host)
    /// followed by the path of the url of the module, the file stem of the definition joined
    /// to the url's directory. `None` where the url does not parse, has no host, or cannot be
    /// joined.
    pub fn library_reference(&self, url: &str, file_stem: &str) -> (r: Option<String>)
        ensures
            (match r {
                Some(s) => Some(s@),
                None => None,
            }) == library_reference_spec(url@, file_stem@),
    {
        let parts = match parse_url(url) {
            Some(p) => p,
            None => return None,
        };
        let lib_name = match &parts.host {
            Some(h) => h,
            None => return None,
        };
        proof {
            reveal_strlit("./");
            assert("./"@ =~= seq!['.', '/']);
        }
        let dir = match join_url(url, "./") {
            Some(d) => d,
            None => return None,
        };
        let module = match join_url(dir.as_str(), file_stem) {
            Some(m) => m,
            None => return None,
        };
        let module_parts = match parse_url(module.as_str()) {
            Some(p) => p,
            None => return None,
        };
        Some(concat(lib_name.as_str(), module_parts.path.as_str()))
    }
}

/// Only `file`, `http` and `https` urls are served, each by one provider.
pub proof fn law_schemes_served(scheme: Seq<char>)
    ensures
        provider_for(scheme) is Some <==> (scheme == seq!['f', 'i', 'l', 'e'] || scheme == seq![
            'h',
            't',
            't',
            'p',
        ] || scheme == seq!['h', 't', 't', 'p', 's']),
{
}

/// The library reference of a module does not depend on how many `/` its path starts with.
pub proof fn law_reference_ignores_leading_slashes(lib_name: Seq<char>, path: Seq<char>)
    ensures
        lib_reference(lib_name, trim_leading_slashes(seq!['/'] + path)) == lib_reference(
            lib_name,
            trim_leading_slashes(path),
        ),
{
    assert((seq!['/'] + path).subrange(1, path.len() as int + 1) =~= path);
}

/// The library reference a `lib:` url resolves with does not depend on where its library was
/// found: it is the library's name and the path under it.
pub proof fn law_reference_independent_of_root(url: UrlPartsModel, root1: Seq<char>, root2: Seq<char>)
    requires
        lib_resolution(url, Some(FoundModel::File(root1))) is Ok,
        lib_resolution(url, Some(FoundModel::File(root2))) is Ok,
    ensures
        lib_resolution(url, Some(FoundModel::File(root1)))->Ok_0.1 == lib_resolution(
            url,
            Some(FoundModel::File(root2)),
        )->Ok_0.1,
        lib_resolution(url, Some(FoundModel::File(root1)))->Ok_0.1 == Some(
            lib_reference(url.host->0, trim_leading_slashes(url.path)),
        ),
{
}

/// Without a library found, a `lib:` url does not resolve, whatever its path.
pub proof fn law_unfound_library_not_resolved(url: UrlPartsModel)
    ensures
        lib_resolution(url, None) is Err,
{
}

} // verus!
