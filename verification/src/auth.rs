//! Credentials of an exporter, and the request headers derived from them.

use crate::string_map::{entries_map, has_key, keys_distinct, pairs_view, StringMap};
use crate::text::{
    ascii_lower, ascii_lowercase, clone_opt, concat, concat3, eq_ignoring_ascii_case,
};
use vstd::prelude::*;
use vstd::string::StringExecFns;
use vstd::utf8::encode_utf8;

verus! {

/// The header that carries an API key where no other name is set.
pub const DEFAULT_API_KEY_HEADER: &'static str = "X-API-Key";

/// The header that carries the Basic or Bearer value.
pub const AUTHORIZATION: &'static str = "Authorization";

/// The standard base64 encoding of `input`, with padding: the characters
/// that `base64::engine::general_purpose::STANDARD` encodes the bytes to.
pub uninterp spec fn base64_standard(input: Seq<u8>) -> Seq<char>;

/// Whether the base64 encoding of `len` bytes has a length that `usize` holds.
pub open spec fn base64_fits(len: nat) -> bool {
    4 * ((len + 2) / 3) <= usize::MAX
}

/// `Engine::encode` of the base64 crate, on its `STANDARD` engine. The result
/// is a function of the bytes alone; the call panics where the encoded
/// length overflows `usize`, which the precondition leaves out.
#[verifier::external_body]
fn base64_encode(input: &[u8]) -> (encoded: String)
    requires
        base64_fits(input@.len()),
    ensures
        encoded@ == base64_standard(input@),
{
    base64::Engine::encode(&base64::engine::general_purpose::STANDARD, input)
}

/// Whether an entry of the extra headers is handed on: its name and its
/// value are not empty, and its name is not `Authorization` in any case of
/// letters.
pub open spec fn is_extra_header(name: Seq<char>, value: Seq<char>) -> bool {
    name.len() > 0 && value.len() > 0 && !eq_ignoring_ascii_case(name, "authorization"@)
}

/// The credentials as mathematical values.
pub struct CredentialsView {
    pub basic_username: Option<Seq<char>>,
    pub basic_password: Option<Seq<char>>,
    pub bearer_token: Option<Seq<char>>,
    pub api_key: Option<Seq<char>>,
    pub api_key_header: Option<Seq<char>>,
    pub headers: Map<Seq<char>, Seq<char>>,
}

impl CredentialsView {
    /// The credentials with nothing set.
    pub open spec fn empty() -> CredentialsView {
        CredentialsView {
            basic_username: None,
            basic_password: None,
            bearer_token: None,
            api_key: None,
            api_key_header: None,
            headers: Map::empty(),
        }
    }

    /// No field is set and there is no extra header.
    pub open spec fn is_empty(self) -> bool {
        &&& self.basic_username is None
        &&& self.basic_password is None
        &&& self.bearer_token is None
        &&& self.api_key is None
        &&& self.api_key_header is None
        &&& self.headers == Map::<Seq<char>, Seq<char>>::empty()
    }

    /// The user name and the password, where both are set.
    pub open spec fn basic_auth(self) -> Option<(Seq<char>, Seq<char>)> {
        match (self.basic_username, self.basic_password) {
            (Some(u), Some(p)) => Some((u, p)),
            _ => None,
        }
    }

    /// The text that Basic authentication encodes: the user name, a colon,
    /// the password.
    pub open spec fn basic_plain(self) -> Seq<char> {
        match self.basic_auth() {
            Some((u, p)) => u + ":"@ + p,
            None => Seq::empty(),
        }
    }

    /// The base64 form of the user name and the password.
    pub open spec fn basic_encoded(self) -> Seq<char> {
        base64_standard(encode_utf8(self.basic_plain()))
    }

    /// The base64 form of the user name and the password has a length that
    /// `usize` holds.
    pub open spec fn encodable(self) -> bool {
        self.basic_auth() is Some ==> base64_fits(encode_utf8(self.basic_plain()).len())
    }

    /// The extra headers that are handed on.
    pub open spec fn extra_headers(self) -> Map<Seq<char>, Seq<char>> {
        Map::new(
            |k: Seq<char>| self.headers.contains_key(k) && is_extra_header(k, self.headers[k]),
            |k: Seq<char>| self.headers[k],
        )
    }

    /// The name of the header that carries the API key.
    pub open spec fn api_key_header_name(self) -> Seq<char> {
        match self.api_key_header {
            Some(name) => name,
            None => DEFAULT_API_KEY_HEADER@,
        }
    }

    /// The value of the `Authorization` header, if one is derived: the Basic
    /// form where a user name and a password are set, with `encoded` as the
    /// encoded pair; else the Bearer form where a token is set.
    pub open spec fn authorization_given(self, encoded: Seq<char>) -> Option<Seq<char>> {
        if self.basic_auth() is Some {
            Some("Basic "@ + encoded)
        } else {
            match self.bearer_token {
                Some(token) => Some("Bearer "@ + token),
                None => None,
            }
        }
    }

    /// The derived headers, with `encoded` as the encoded pair of Basic
    /// authentication: the extra headers, then the API key, then the
    /// `Authorization` header, each replacing an earlier header of its name.
    pub open spec fn header_map_given(self, encoded: Seq<char>) -> Map<Seq<char>, Seq<char>> {
        let extra = self.extra_headers();
        let keyed = match self.api_key {
            Some(key) => extra.insert(self.api_key_header_name(), key),
            None => extra,
        };
        match self.authorization_given(encoded) {
            Some(value) => keyed.insert(AUTHORIZATION@, value),
            None => keyed,
        }
    }

    /// The value of the derived `Authorization` header, if there is one.
    pub open spec fn authorization(self) -> Option<Seq<char>> {
        self.authorization_given(self.basic_encoded())
    }

    /// The derived headers.
    pub open spec fn header_map(self) -> Map<Seq<char>, Seq<char>> {
        self.header_map_given(self.basic_encoded())
    }

    /// The same credentials without their extra headers.
    pub open spec fn without_extra_headers(self) -> CredentialsView {
        CredentialsView { headers: Map::empty(), ..self }
    }
}

/// `Authorization` is itself a name that the filter of the extra headers
/// refuses.
pub proof fn lemma_authorization_is_filtered()
    ensures
        eq_ignoring_ascii_case(AUTHORIZATION@, "authorization"@),
        forall|value: Seq<char>| !is_extra_header(AUTHORIZATION@, value),
{
    reveal_strlit("Authorization");
    reveal_strlit("authorization");
    let a = AUTHORIZATION@;
    let b = "authorization"@;
    assert(ascii_lower(a[0]) == b[0]);
    assert forall|i: int| 0 <= i < a.len() implies ascii_lower(a[i]) == ascii_lower(b[i]) by {}
    assert(ascii_lowercase(a) =~= ascii_lowercase(b));
}

/// The `Authorization` header of the derived headers never comes from the
/// extra headers. No extra header of that name, in any case of letters, is
/// handed on. Where a Basic or Bearer value is derived, the header holds
/// it. Where none is derived, the header is there only if the API key is
/// sent under that very name, and then holds the API key. So the header is
/// what it would be without any extra header.
pub proof fn lemma_authorization_never_from_extra_headers(c: CredentialsView)
    ensures
        forall|k: Seq<char>|
            eq_ignoring_ascii_case(k, "authorization"@) ==> !c.extra_headers().contains_key(k),
        !c.extra_headers().contains_key(AUTHORIZATION@),
        c.authorization() matches Some(value) ==> c.header_map().contains_key(AUTHORIZATION@)
            && c.header_map()[AUTHORIZATION@] == value,
        c.authorization() is None ==> (c.header_map().contains_key(AUTHORIZATION@) <==> c.api_key
            is Some && c.api_key_header_name() == AUTHORIZATION@),
        c.authorization() is None && c.header_map().contains_key(AUTHORIZATION@)
            ==> c.header_map()[AUTHORIZATION@] == c.api_key->0,
        c.header_map().contains_key(AUTHORIZATION@) == c.without_extra_headers().header_map().contains_key(
            AUTHORIZATION@,
        ),
        c.header_map().contains_key(AUTHORIZATION@) ==> c.header_map()[AUTHORIZATION@]
            == c.without_extra_headers().header_map()[AUTHORIZATION@],
{
    lemma_authorization_is_filtered();
}

/// Basic authentication takes precedence: where a user name, a password and
/// a bearer token are all set, the `Authorization` header holds the Basic
/// form, and no value that begins as the Bearer form does.
pub proof fn lemma_basic_takes_precedence(c: CredentialsView)
    requires
        c.basic_username is Some,
        c.basic_password is Some,
        c.bearer_token is Some,
    ensures
        c.authorization() == Some("Basic "@ + c.basic_encoded()),
        c.header_map().contains_key(AUTHORIZATION@),
        c.header_map()[AUTHORIZATION@] == "Basic "@ + c.basic_encoded(),
        !"Bearer "@.is_prefix_of(c.header_map()[AUTHORIZATION@]),
{
    reveal_strlit("Basic ");
    reveal_strlit("Bearer ");
    let value = "Basic "@ + c.basic_encoded();
    assert(value[1] == 'a');
    if "Bearer "@.is_prefix_of(value) {
        assert(value.subrange(0, 7)[1] == 'e');
    }
}

/// How an exporter authenticates: by user name and password, by bearer
/// token, by API key, and by any further headers.
#[derive(Debug)]
pub struct Credentials {
    pub basic_username: Option<String>,
    pub basic_password: Option<String>,
    pub bearer_token: Option<String>,
    pub api_key: Option<String>,
    pub api_key_header: Option<String>,
    pub headers: StringMap,
}

impl View for Credentials {
    type V = CredentialsView;

    open spec fn view(&self) -> CredentialsView {
        CredentialsView {
            basic_username: self.basic_username.deep_view(),
            basic_password: self.basic_password.deep_view(),
            bearer_token: self.bearer_token.deep_view(),
            api_key: self.api_key.deep_view(),
            api_key_header: self.api_key_header.deep_view(),
            headers: self.headers@,
        }
    }
}

impl Clone for Credentials {
    fn clone(&self) -> (c: Credentials)
        ensures
            c@ == self@,
            c.headers.spec_entries() == self.headers.spec_entries(),
    {
        Credentials {
            basic_username: clone_opt(&self.basic_username),
            basic_password: clone_opt(&self.basic_password),
            bearer_token: clone_opt(&self.bearer_token),
            api_key: clone_opt(&self.api_key),
            api_key_header: clone_opt(&self.api_key_header),
            headers: self.headers.clone(),
        }
    }
}

impl Default for Credentials {
    fn default() -> (c: Credentials)
        ensures
            c@ == CredentialsView::empty(),
    {
        Credentials::new()
    }
}

impl Credentials {
    /// Credentials with nothing set.
    pub fn new() -> (c: Credentials)
        ensures
            c@ == CredentialsView::empty(),
    {
        Credentials {
            basic_username: None,
            basic_password: None,
            bearer_token: None,
            api_key: None,
            api_key_header: None,
            headers: StringMap::new(),
        }
    }

    /// Sets the user name and the password of Basic authentication.
    pub fn with_basic(self, username: &str, password: &str) -> (c: Credentials)
        ensures
            c@ == (CredentialsView {
                basic_username: Some(username@),
                basic_password: Some(password@),
                ..self@
            }),
    {
        let mut c = self;
        c.basic_username = Some(String::from_str(username));
        c.basic_password = Some(String::from_str(password));
        c
    }

    /// Sets the bearer token.
    pub fn with_bearer(self, token: &str) -> (c: Credentials)
        ensures
            c@ == (CredentialsView { bearer_token: Some(token@), ..self@ }),
    {
        let mut c = self;
        c.bearer_token = Some(String::from_str(token));
        c
    }

    /// Sets the API key.
    pub fn with_api_key(self, key: &str) -> (c: Credentials)
        ensures
            c@ == (CredentialsView { api_key: Some(key@), ..self@ }),
    {
        let mut c = self;
        c.api_key = Some(String::from_str(key));
        c
    }

    /// Sets the name of the header that carries the API key.
    pub fn with_api_key_header(self, header: &str) -> (c: Credentials)
        ensures
            c@ == (CredentialsView { api_key_header: Some(header@), ..self@ }),
    {
        let mut c = self;
        c.api_key_header = Some(String::from_str(header));
        c
    }

    /// Adds an extra header, in place of one of the same name.
    pub fn with_header(self, key: &str, value: &str) -> (c: Credentials)
        ensures
            c@ == (CredentialsView { headers: self@.headers.insert(key@, value@), ..self@ }),
    {
        let mut c = self;
        c.headers.insert(String::from_str(key), String::from_str(value));
        c
    }

    /// Whether nothing is set: no field and no extra header.
    pub fn is_empty(&self) -> (e: bool)
        ensures
            e == self@.is_empty(),
    {
        self.basic_username.is_none() && self.basic_password.is_none()
            && self.bearer_token.is_none() && self.api_key.is_none()
            && self.api_key_header.is_none() && self.headers.is_empty()
    }

    /// The user name and the password, for a collaborator that authenticates
    /// natively; `None` unless both are set.
    pub fn basic_auth(&self) -> (pair: Option<(String, String)>)
        ensures
            pair.deep_view() == self@.basic_auth(),
    {
        match (&self.basic_username, &self.basic_password) {
            (Some(u), Some(p)) => Some((u.clone(), p.clone())),
            _ => None,
        }
    }

    /// The bearer token, if one is set.
    pub fn bearer(&self) -> (token: Option<String>)
        ensures
            token.deep_view() == self@.bearer_token,
    {
        clone_opt(&self.bearer_token)
    }

    /// Whether the user name and the password are short enough for their
    /// base64 form to have a length that `usize` holds. This fails only for
    /// strings of more than a third of the address space.
    pub fn is_encodable(&self) -> (ok: bool)
        ensures
            ok == self@.encodable(),
    {
        match (&self.basic_username, &self.basic_password) {
            (Some(u), Some(p)) => {
                let plain = concat3(u.as_str(), ":", p.as_str());
                let len = plain.as_str().as_bytes().len();
                len / 3 < usize::MAX / 4
                    || (len / 3 == usize::MAX / 4 && len % 3 == 0)
            },
            _ => true,
        }
    }

    /// The extra headers that are handed on: those whose name and value are
    /// not empty and whose name is not `Authorization` in any case of letters.
    fn extra_headers(&self) -> (extra: StringMap)
        ensures
            extra@ == self@.extra_headers(),
    {
        let entries = self.headers.entries();
        let ghost all = self.headers.spec_entries();
        let ghost source = self@.headers;
        let mut extra = StringMap::new();
        let mut i: usize = 0;
        while i < entries.len()
            invariant
                i <= entries.len(),
                all == pairs_view(entries@),
                keys_distinct(all),
                source == entries_map(all),
                forall|j: int|
                    0 <= j < all.len() ==> source.contains_key((#[trigger] all[j]).0)
                        && source[all[j].0] == all[j].1,
                forall|k: Seq<char>| source.contains_key(k) <==> has_key(all, k),
                extra@ == Map::<Seq<char>, Seq<char>>::new(
                    |k: Seq<char>|
                        has_key(all.subrange(0, i as int), k) && is_extra_header(k, source[k]),
                    |k: Seq<char>| source[k],
                ),
            decreases entries.len() - i,
        {
            let name = &entries[i].0;
            let value = &entries[i].1;
            let ghost before = all.subrange(0, i as int);
            let ghost after = all.subrange(0, i + 1);
            assert(all[i as int] == (name@, value@));
            proof {
                assert forall|k: Seq<char>| has_key(after, k) <==> (has_key(before, k) || k
                    == name@) by {
                    if has_key(before, k) {
                        let j = choose|j: int| 0 <= j < before.len() && (#[trigger] before[j]).0
                            == k;
                        assert(after[j] == before[j]);
                    }
                    if k == name@ {
                        assert(after[i as int].0 == k);
                    }
                    if has_key(after, k) {
                        let j = choose|j: int| 0 <= j < after.len() && (#[trigger] after[j]).0
                            == k;
                        if j < i {
                            assert(before[j] == after[j]);
                        }
                    }
                }
            }
            if !name.as_str().is_empty() && !value.as_str().is_empty()
                && !name.as_str().eq_ignore_ascii_case("authorization") {
                extra.insert(name.clone(), value.clone());
            }
            assert(extra@ =~= Map::<Seq<char>, Seq<char>>::new(
                |k: Seq<char>| has_key(after, k) && is_extra_header(k, source[k]),
                |k: Seq<char>| source[k],
            ));
            i += 1;
        }
        assert(all.subrange(0, i as int) == all);
        assert(extra@ =~= self@.extra_headers());
        extra
    }

    /// The derived headers, given the base64 form of the user name and the
    /// password as `encoded`: the extra headers that are handed on, then the
    /// API key under its header name, then `Authorization` with the Basic
    /// value or, where no user name and password are set, the Bearer value.
    pub fn header_map_with(&self, encoded: &str) -> (headers: StringMap)
        ensures
            headers@ == self@.header_map_given(encoded@),
    {
        let mut headers = self.extra_headers();
        match &self.api_key {
            Some(key) => {
                let name = match &self.api_key_header {
                    Some(name) => name.clone(),
                    None => String::from_str(DEFAULT_API_KEY_HEADER),
                };
                headers.insert(name, key.clone());
            },
            None => {},
        }
        match (&self.basic_username, &self.basic_password) {
            (Some(_), Some(_)) => {
                headers.insert(String::from_str(AUTHORIZATION), concat("Basic ", encoded));
            },
            _ => {
                match &self.bearer_token {
                    Some(token) => {
                        headers.insert(
                            String::from_str(AUTHORIZATION),
                            concat("Bearer ", token.as_str()),
                        );
                    },
                    None => {},
                }
            },
        }
        headers
    }

    /// The base64 form of the user name, a colon and the password; the empty
    /// string where the two are not both set.
    pub fn basic_encoded(&self) -> (encoded: String)
        requires
            self@.encodable(),
        ensures
            self@.basic_auth() is Some ==> encoded@ == self@.basic_encoded(),
            self@.basic_auth() is None ==> encoded@ == Seq::<char>::empty(),
    {
        match (&self.basic_username, &self.basic_password) {
            (Some(u), Some(p)) => {
                let plain = concat3(u.as_str(), ":", p.as_str());
                base64_encode(plain.as_str().as_bytes())
            },
            _ => String::new(),
        }
    }

    /// The headers that a request carries for these credentials.
    pub fn header_map(&self) -> (headers: StringMap)
        requires
            self@.encodable(),
        ensures
            headers@ == self@.header_map(),
    {
        let encoded = self.basic_encoded();
        self.header_map_with(encoded.as_str())
    }
}

} // verus!
