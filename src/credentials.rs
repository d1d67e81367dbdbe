//! Credentials: reading the stored OAuth token and choosing where it comes
//! from. The platform secret store, where there is one, is tried first; the
//! credentials file is the fallback, and its absence is an error only once
//! every source has been tried.

use vstd::prelude::*;
use crate::json_text::{decimal, decimal_text};
use crate::json::{Json, field, str_at, u64_at, str_list_at, texts, get, get_str, get_u64, get_str_list};

verus! {

/// The stored OAuth token.
pub struct OAuthToken {
    pub access_token: String,
    pub expires_at: u64,
    pub scopes: Vec<String>,
}

/// The credentials document: one OAuth token under `claudeAiOauth`.
pub struct OAuthCredentials {
    pub claude_ai_oauth: OAuthToken,
}

/// The scopes written as a list: `[` then the scopes, each in quotes, separated
/// by `, `, then `]`.
pub open spec fn scope_list(scopes: Seq<Seq<char>>) -> Seq<char> {
    seq!['['] + scope_items(scopes, scopes.len() as int) + seq![']']
}

/// The first `n` scopes, each in quotes, separated by `, `.
pub open spec fn scope_items(scopes: Seq<Seq<char>>, n: int) -> Seq<char>
    decreases n,
{
    if n <= 0 || n > scopes.len() {
        Seq::empty()
    } else if n == 1 {
        seq!['"'] + scopes[0] + seq!['"']
    } else {
        scope_items(scopes, n - 1) + seq![',', ' ', '"'] + scopes[n - 1] + seq!['"']
    }
}

impl OAuthToken {
    /// A description that shows the expiry and the scopes and leaves out the
    /// access token.
    pub fn redacted(&self) -> (r: String)
        ensures
            r@ == self.redacted_spec(),
    {
        let mut list = String::from_str("[");
        proof {
            reveal_strlit("[");
        }
        let mut i: usize = 0;
        while i < self.scopes.len()
            invariant
                i <= self.scopes@.len(),
                list@ == seq!['['] + scope_items(texts(self.scopes@), i as int),
            decreases self.scopes@.len() - i,
        {
            let ghost before = list@;
            if i > 0 {
                list.append(", ");
                proof {
                    reveal_strlit(", ");
                }
            }
            list.append("\"");
            list.append(self.scopes[i].as_str());
            list.append("\"");
            proof {
                reveal_strlit("\"");
            }
            i = i + 1;
            assert(list@ =~= seq!['['] + scope_items(texts(self.scopes@), i as int));
        }
        list.append("]");
        proof {
            reveal_strlit("]");
        }
        assert(list@ =~= scope_list(texts(self.scopes@)));
        String::from_str("OAuthToken { access_token: \"[REDACTED]\", expires_at: ").concat(
            decimal_text(self.expires_at).as_str(),
        ).concat(", scopes: ").concat(list.as_str()).concat(" }")
    }
}

impl OAuthCredentials {
    /// A description of the credentials that leaves out the access token.
    pub fn redacted(&self) -> (r: String)
        ensures
            r@ == "OAuthCredentials { claude_ai_oauth: "@ + self.claude_ai_oauth.redacted_spec()
                + " }"@,
    {
        String::from_str("OAuthCredentials { claude_ai_oauth: ").concat(
            self.claude_ai_oauth.redacted().as_str(),
        ).concat(" }")
    }
}

impl OAuthToken {
    /// The text of `redacted`.
    pub open spec fn redacted_spec(&self) -> Seq<char> {
        "OAuthToken { access_token: \"[REDACTED]\", expires_at: "@ + decimal(self.expires_at as nat)
            + ", scopes: "@ + scope_list(texts(self.scopes@)) + " }"@
    }
}

/// The token object of a credentials document.
pub open spec fn token_json(j: Json) -> Json {
    match field(j, "claudeAiOauth"@) {
        Some(t) => t,
        None => Json::Null,
    }
}

/// `j` is a credentials document: an object whose `claudeAiOauth` member holds
/// an access token string, an expiry integer and a list of scope strings.
pub open spec fn credentials_ok(j: Json) -> bool {
    let t = token_json(j);
    &&& field(j, "claudeAiOauth"@) is Some
    &&& str_at(t, "accessToken"@) is Some
    &&& u64_at(t, "expiresAt"@) is Some
    &&& str_list_at(t, "scopes"@) is Some
}

/// `c` holds the values of the credentials document `j`.
pub open spec fn credentials_read(c: OAuthCredentials, j: Json) -> bool {
    let t = token_json(j);
    &&& str_at(t, "accessToken"@) == Some(c.claude_ai_oauth.access_token@)
    &&& u64_at(t, "expiresAt"@) == Some(c.claude_ai_oauth.expires_at)
    &&& str_list_at(t, "scopes"@) == Some(texts(c.claude_ai_oauth.scopes@))
}

/// Reads a credentials document; other members are ignored.
pub fn decode_credentials(j: &Json) -> (r: Option<OAuthCredentials>)
    ensures
        r is Some <==> credentials_ok(*j),
        r matches Some(c) ==> credentials_read(c, *j),
{
    let t = match get(j, "claudeAiOauth") {
        Some(t) => t,
        None => {
            return None;
        },
    };
    let access_token = match get_str(t, "accessToken") {
        Some(s) => s,
        None => {
            return None;
        },
    };
    let expires_at = match get_u64(t, "expiresAt") {
        Some(n) => n,
        None => {
            return None;
        },
    };
    let scopes = match get_str_list(t, "scopes") {
        Some(v) => v,
        None => {
            return None;
        },
    };
    Some(OAuthCredentials { claude_ai_oauth: OAuthToken { access_token, expires_at, scopes } })
}

/// The organization of the account that the token belongs to.
#[derive(Debug)]
pub struct OrgInfo {
    pub uuid: String,
}

/// The profile lookup's answer.
#[derive(Debug)]
pub struct ProfileResponse {
    pub organization: OrgInfo,
}

/// The organization UUID of a profile answer.
pub open spec fn profile_org(j: Json) -> Option<Seq<char>> {
    match field(j, "organization"@) {
        Some(o) => str_at(o, "uuid"@),
        None => None,
    }
}

/// Reads a profile answer; it must name an organization UUID.
pub fn decode_profile(j: &Json) -> (r: Option<ProfileResponse>)
    ensures
        match r {
            Some(p) => profile_org(*j) == Some(p.organization.uuid@),
            None => profile_org(*j) is None,
        },
{
    match get(j, "organization") {
        Some(o) => match get_str(o, "uuid") {
            Some(uuid) => Some(ProfileResponse { organization: OrgInfo { uuid } }),
            None => None,
        },
        None => None,
    }
}

/// What the platform secret store gave.
pub enum StoreLookup {
    /// The platform has no secret store.
    Unavailable,
    /// The store had no entry, or could not be read.
    Failed,
    /// The entry, read as JSON.
    Found(Json),
}

/// What reading the credentials file gave.
pub enum FileLookup {
    /// No file at the path.
    Missing,
    /// The file exists but could not be read.
    Unreadable(String),
    /// The file is not JSON.
    NotJson,
    /// The file's contents, read as JSON.
    Found(Json),
}

/// Why no credentials could be had.
#[derive(Debug, Clone, PartialEq, Eq)]
pub enum CredentialError {
    /// No source held credentials: the store (when there is one) failed and
    /// there is no file at `path`.
    NoCredentials { store_checked: bool, path: String },
    /// The file at `path` could not be read.
    Unreadable { path: String, reason: String },
    /// The file at `path` is not a credentials document.
    Malformed { path: String },
}

impl CredentialError {
    /// A message that names every source checked and its path.
    pub fn message(&self) -> (r: String)
        ensures
            match *self {
                CredentialError::NoCredentials { store_checked, path } => r@ == (if store_checked {
                    "No credentials found. Checked the platform secret store and "@
                } else {
                    "No credentials found at "@
                }) + path@ + ". Log in first."@,
                CredentialError::Unreadable { path, reason } => r@
                    == "Failed to read credentials from "@ + path@ + ": "@ + reason@,
                CredentialError::Malformed { path } => r@ == "Failed to parse credentials JSON from "@
                    + path@,
            },
    {
        match self {
            CredentialError::NoCredentials { store_checked, path } => {
                let head = if *store_checked {
                    String::from_str("No credentials found. Checked the platform secret store and ")
                } else {
                    String::from_str("No credentials found at ")
                };
                head.concat(path.as_str()).concat(". Log in first.")
            },
            CredentialError::Unreadable { path, reason } => String::from_str(
                "Failed to read credentials from ",
            ).concat(path.as_str()).concat(": ").concat(reason.as_str()),
            CredentialError::Malformed { path } => String::from_str(
                "Failed to parse credentials JSON from ",
            ).concat(path.as_str()),
        }
    }
}

/// The store yields credentials.
pub open spec fn store_yields(store: StoreLookup) -> bool {
    store matches StoreLookup::Found(j) && credentials_ok(j)
}

/// The credentials from the secret store, if its entry is a credentials
/// document; otherwise resolution goes on to the file.
pub fn credentials_from_store(store: &StoreLookup) -> (r: Option<OAuthCredentials>)
    ensures
        r is Some <==> store_yields(*store),
        r matches Some(c) ==> (*store matches StoreLookup::Found(j) && credentials_read(c, j)),
{
    match store {
        StoreLookup::Found(j) => decode_credentials(j),
        _ => None,
    }
}

/// Whether resolution has to read the file: the store yielded nothing.
pub fn needs_file(store: &StoreLookup) -> (r: bool)
    ensures
        r == !store_yields(*store),
{
    match store {
        StoreLookup::Found(j) => match decode_credentials(j) {
            Some(_) => false,
            None => true,
        },
        _ => true,
    }
}

/// The file yields credentials.
pub open spec fn file_yields(file: FileLookup) -> bool {
    file matches FileLookup::Found(j) && credentials_ok(j)
}

/// The error of the file step, when it yields nothing.
pub open spec fn file_error(file: FileLookup, path: Seq<char>, store_checked: bool, e: CredentialError) -> bool {
    match file {
        FileLookup::Missing => e matches CredentialError::NoCredentials { store_checked: sc, path: p } && sc == store_checked && p@ == path,
        FileLookup::Unreadable(why) => e matches CredentialError::Unreadable { path: p, reason } && p@ == path && reason@ == why@,
        _ => e matches CredentialError::Malformed { path: p } && p@ == path,
    }
}

/// The credentials from the file at `path`, the last source; `store_checked`
/// says whether a secret store was tried before it.
pub fn credentials_from_file(file: &FileLookup, path: &str, store_checked: bool) -> (r: Result<OAuthCredentials, CredentialError>)
    ensures
        r is Ok <==> file_yields(*file),
        r matches Ok(c) ==> (*file matches FileLookup::Found(j) && credentials_read(c, j)),
        r matches Err(e) ==> file_error(*file, path@, store_checked, e),
{
    match file {
        FileLookup::Missing => Err(CredentialError::NoCredentials { store_checked, path: String::from_str(path) }),
        FileLookup::Unreadable(why) => Err(CredentialError::Unreadable { path: String::from_str(path), reason: why.clone() }),
        FileLookup::NotJson => Err(CredentialError::Malformed { path: String::from_str(path) }),
        FileLookup::Found(j) => match decode_credentials(j) {
            Some(c) => Ok(c),
            None => Err(CredentialError::Malformed { path: String::from_str(path) }),
        },
    }
}

/// Which source the credentials came from.
#[derive(Debug, Clone, Copy, PartialEq, Eq)]
pub enum CredentialSource {
    SecretStore,
    File,
}

/// Resolution over both sources: the store first, then the file.
pub fn load_credentials(store: &StoreLookup, file: &FileLookup, path: &str) -> (r: Result<(OAuthCredentials, CredentialSource), CredentialError>)
    ensures
        store_yields(*store) ==> (r matches Ok((c, src)) && (src == CredentialSource::SecretStore
            && (*store matches StoreLookup::Found(j) && credentials_read(c, j)))),
        !store_yields(*store) ==> match r {
            Ok((c, src)) => src == CredentialSource::File && (*file matches FileLookup::Found(j)
                && credentials_ok(j) && credentials_read(c, j)),
            Err(e) => !file_yields(*file) && file_error(*file, path@, !(store is Unavailable), e),
        },
        r is Err <==> (!store_yields(*store) && !file_yields(*file)),
{
    match credentials_from_store(store) {
        Some(c) => Ok((c, CredentialSource::SecretStore)),
        None => {
            let checked = match store {
                StoreLookup::Unavailable => false,
                _ => true,
            };
            match credentials_from_file(file, path, checked) {
                Ok(c) => Ok((c, CredentialSource::File)),
                Err(e) => Err(e),
            }
        },
    }
}

} // verus!

verus! {

/// `name` placed in directory `dir`: `name` itself for an empty directory,
/// one separator between them otherwise.
pub open spec fn joined(dir: Seq<char>, name: Seq<char>) -> Seq<char> {
    if dir.len() == 0 {
        name
    } else if dir.last() == '/' {
        dir + name
    } else {
        dir + seq!['/'] + name
    }
}

fn join(dir: &str, name: &str) -> (r: String)
    ensures
        r@ == joined(dir@, name@),
{
    let n = dir.unicode_len();
    if n == 0 {
        String::from_str(name)
    } else if dir.get_char(n - 1) == '/' {
        String::from_str(dir).concat(name)
    } else {
        let r = String::from_str(dir).concat("/").concat(name);
        proof {
            reveal_strlit("/");
        }
        assert(r@ =~= dir@ + seq!['/'] + name@);
        r
    }
}

/// Where the credentials file is: `.credentials.json` in the configured
/// directory when one is set, else in `default_dir` under the home directory
/// (the current directory when there is no home).
pub fn credentials_file_path(config_dir: Option<&str>, home: Option<&str>, default_dir: &str) -> (r: String)
    ensures
        match config_dir {
            Some(d) => r@ == joined(d@, ".credentials.json"@),
            None => r@ == joined(
                joined(
                    match home {
                        Some(h) => h@,
                        None => "."@,
                    },
                    default_dir@,
                ),
                ".credentials.json"@,
            ),
        },
{
    match config_dir {
        Some(d) => join(d, ".credentials.json"),
        None => {
            let base = match home {
                Some(h) => h,
                None => ".",
            };
            let dir = join(base, default_dir);
            join(dir.as_str(), ".credentials.json")
        },
    }
}

} // verus!
