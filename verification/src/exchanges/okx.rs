//! The OKX exchange: its credentials, and the requests that they sign.

use vstd::prelude::*;
use vstd::string::StringExecFns;
use crate::clock::{current_timestamp, is_utc_millis_timestamp};
use crate::error::ExchangeError;
use crate::json::{json_body, write_json_object};
use crate::query::{build_query_string, optional_entries, query_string};
use crate::response::{classified_list, describes, list_outcome, read_data_list, RawResponse};
use crate::signature::{sign, signature_of, SigningInput, SigningParts};
use crate::string_map::{
    as_map, has_key, index_of, keys_distinct, lemma_entry_at, lemma_with_new_key, value_of, Entries,
    StringMap,
};
use crate::text::str_equal;

verus! {

/// The model of an `OkxExchange`.
pub struct Credentials {
    pub key: Seq<char>,
    pub secret: Seq<char>,
    pub passphrase: Seq<char>,
    pub base_url: Seq<char>,
    pub is_demo: bool,
}

/// The credentials of one account and the environment that they are for.
/// Nothing changes them once they are made.
pub struct OkxExchange {
    key: String,
    secret: String,
    passphrase: String,
    base_url: String,
    is_demo: bool,
}

impl View for OkxExchange {
    type V = Credentials;

    closed spec fn view(&self) -> Credentials {
        Credentials {
            key: self.key@,
            secret: self.secret@,
            passphrase: self.passphrase@,
            base_url: self.base_url@,
            is_demo: self.is_demo,
        }
    }
}

/// The host of the exchange.
pub open spec fn host() -> Seq<char> {
    "https://www.okx.com"@
}

/// What a configuration gives: the credentials, or the name of the first
/// required value that it lacks. The sandbox flag is set only by the text
/// `true`.
pub open spec fn configured(configs: Entries) -> Result<Credentials, Seq<char>> {
    if value_of(configs, "key"@) is None {
        Err("key"@)
    } else if value_of(configs, "secret"@) is None {
        Err("secret"@)
    } else if value_of(configs, "passphrase"@) is None {
        Err("passphrase"@)
    } else {
        Ok(
            Credentials {
                key: value_of(configs, "key"@)->0,
                secret: value_of(configs, "secret"@)->0,
                passphrase: value_of(configs, "passphrase"@)->0,
                base_url: host(),
                is_demo: value_of(configs, "is_demo"@) == Some("true"@),
            },
        )
    }
}

/// The headers of a signed request, in the order in which they are set.
pub open spec fn signed_headers(
    credentials: Credentials,
    signature: Seq<char>,
    timestamp: Seq<char>,
) -> Entries {
    let always = seq![
        ("Content-Type"@, "application/json"@),
        ("OK-ACCESS-KEY"@, credentials.key),
        ("OK-ACCESS-SIGN"@, signature),
        ("OK-ACCESS-TIMESTAMP"@, timestamp),
        ("OK-ACCESS-PASSPHRASE"@, credentials.passphrase),
    ];
    if credentials.is_demo {
        always.push(("x-simulated-trading"@, "1"@))
    } else {
        always
    }
}

/// The five headers that every signed request has, as an unordered mapping.
pub open spec fn always_headers(
    credentials: Credentials,
    signature: Seq<char>,
    timestamp: Seq<char>,
) -> Map<Seq<char>, Seq<char>> {
    map![
        "Content-Type"@ => "application/json"@,
        "OK-ACCESS-KEY"@ => credentials.key,
        "OK-ACCESS-SIGN"@ => signature,
        "OK-ACCESS-TIMESTAMP"@ => timestamp,
        "OK-ACCESS-PASSPHRASE"@ => credentials.passphrase,
    ]
}

/// Whether requests of a method carry a body.
pub open spec fn carries_body(method: Seq<char>) -> bool {
    method == "POST"@
}

/// The body of a request: the JSON object of the body parameters for a
/// method that carries a body, and nothing otherwise.
pub open spec fn body_string(method: Seq<char>, body: Option<Entries>) -> Seq<char> {
    if carries_body(method) {
        match body {
            Some(members) => json_body(members),
            None => seq![],
        }
    } else {
        seq![]
    }
}

/// A request that is ready to be sent.
pub struct SignedRequest {
    pub method: String,
    pub url: String,
    pub headers: StringMap,
    pub body: String,
    pub timestamp: String,
}

/// The model of a `SignedRequest`.
pub struct RequestParts {
    pub method: Seq<char>,
    pub url: Seq<char>,
    pub headers: Entries,
    pub body: Seq<char>,
    pub timestamp: Seq<char>,
}

impl View for SignedRequest {
    type V = RequestParts;

    open spec fn view(&self) -> RequestParts {
        RequestParts {
            method: self.method@,
            url: self.url@,
            headers: self.headers@,
            body: self.body@,
            timestamp: self.timestamp@,
        }
    }
}

/// What is signed of a request with the given query and body parameters.
pub open spec fn signing_parts(
    timestamp: Seq<char>,
    method: Seq<char>,
    endpoint: Seq<char>,
    query: Option<Entries>,
    body: Option<Entries>,
) -> SigningParts {
    SigningParts {
        timestamp,
        method,
        request_path: endpoint,
        query_string: query_string(query),
        body_string: body_string(method, body),
    }
}

/// The request that the credentials sign at the given time.
pub open spec fn signed_request(
    credentials: Credentials,
    timestamp: Seq<char>,
    method: Seq<char>,
    endpoint: Seq<char>,
    query: Option<Entries>,
    body: Option<Entries>,
) -> RequestParts {
    let parts = signing_parts(timestamp, method, endpoint, query, body);
    RequestParts {
        method,
        url: credentials.base_url + endpoint + parts.query_string,
        headers: signed_headers(
            credentials,
            signature_of(credentials.secret, parts),
            timestamp,
        ),
        body: parts.body_string,
        timestamp,
    }
}

/// The path of the endpoint that lists the balances of the account.
pub open spec fn balance_endpoint() -> Seq<char> {
    "/api/v5/account/balance"@
}

/// The names of the six headers differ from one another.
pub proof fn lemma_header_names_distinct()
    ensures
        "Content-Type"@ != "OK-ACCESS-KEY"@,
        "Content-Type"@ != "OK-ACCESS-SIGN"@,
        "Content-Type"@ != "OK-ACCESS-TIMESTAMP"@,
        "Content-Type"@ != "OK-ACCESS-PASSPHRASE"@,
        "Content-Type"@ != "x-simulated-trading"@,
        "OK-ACCESS-KEY"@ != "OK-ACCESS-SIGN"@,
        "OK-ACCESS-KEY"@ != "OK-ACCESS-TIMESTAMP"@,
        "OK-ACCESS-KEY"@ != "OK-ACCESS-PASSPHRASE"@,
        "OK-ACCESS-KEY"@ != "x-simulated-trading"@,
        "OK-ACCESS-SIGN"@ != "OK-ACCESS-TIMESTAMP"@,
        "OK-ACCESS-SIGN"@ != "OK-ACCESS-PASSPHRASE"@,
        "OK-ACCESS-SIGN"@ != "x-simulated-trading"@,
        "OK-ACCESS-TIMESTAMP"@ != "OK-ACCESS-PASSPHRASE"@,
        "OK-ACCESS-TIMESTAMP"@ != "x-simulated-trading"@,
        "OK-ACCESS-PASSPHRASE"@ != "x-simulated-trading"@,
{
    reveal_strlit("Content-Type");
    reveal_strlit("OK-ACCESS-KEY");
    reveal_strlit("OK-ACCESS-SIGN");
    reveal_strlit("OK-ACCESS-TIMESTAMP");
    reveal_strlit("OK-ACCESS-PASSPHRASE");
    reveal_strlit("x-simulated-trading");
    assert("Content-Type"@.len() == 12);
    assert("OK-ACCESS-KEY"@.len() == 13);
    assert("OK-ACCESS-SIGN"@.len() == 14);
    assert("OK-ACCESS-TIMESTAMP"@.len() == 19);
    assert("OK-ACCESS-PASSPHRASE"@.len() == 20);
    assert("x-simulated-trading"@.len() == 19);
    assert("OK-ACCESS-TIMESTAMP"@[0] == 'O');
    assert("x-simulated-trading"@[0] == 'x');
}

/// The headers of a signed request are exactly the five that every request
/// has and, in sandbox mode and only then, `x-simulated-trading` with the
/// value `1`.
pub proof fn lemma_sandbox_header(
    credentials: Credentials,
    signature: Seq<char>,
    timestamp: Seq<char>,
)
    ensures
        keys_distinct(signed_headers(credentials, signature, timestamp)),
        has_key(signed_headers(credentials, signature, timestamp), "x-simulated-trading"@)
            == credentials.is_demo,
        credentials.is_demo ==> value_of(
            signed_headers(credentials, signature, timestamp),
            "x-simulated-trading"@,
        ) == Some("1"@),
        as_map(signed_headers(credentials, signature, timestamp)) == if credentials.is_demo {
            always_headers(credentials, signature, timestamp).insert("x-simulated-trading"@, "1"@)
        } else {
            always_headers(credentials, signature, timestamp)
        },
        !always_headers(credentials, signature, timestamp).contains_key("x-simulated-trading"@),
{
    lemma_header_names_distinct();
    let headers = signed_headers(credentials, signature, timestamp);
    let expected = if credentials.is_demo {
        always_headers(credentials, signature, timestamp).insert("x-simulated-trading"@, "1"@)
    } else {
        always_headers(credentials, signature, timestamp)
    };
    assert(keys_distinct(headers));
    lemma_entry_at(headers, 0);
    lemma_entry_at(headers, 1);
    lemma_entry_at(headers, 2);
    lemma_entry_at(headers, 3);
    lemma_entry_at(headers, 4);
    if credentials.is_demo {
        lemma_entry_at(headers, 5);
    }
    assert forall|name: Seq<char>| as_map(headers).contains_key(name) implies expected.contains_key(
        name,
    ) && expected[name] == as_map(headers)[name] by {
        let at = index_of(headers, name);
        assert(headers[at].0 == name);
    }
    assert(as_map(headers) =~= expected);
}

/// Writes the body of a request.
pub fn build_body_string(method: &str, body: Option<&StringMap>) -> (text: String)
    ensures
        text@ == body_string(method@, optional_entries(body)),
{
    if str_equal(method, "POST") {
        match body {
            Some(map) => write_json_object(map),
            None => String::new(),
        }
    } else {
        String::new()
    }
}

impl OkxExchange {
    /// Reads the credentials from a configuration. The values `key`,
    /// `secret` and `passphrase` are required; `is_demo` selects the sandbox
    /// where it is `true`.
    pub fn new(configs: &StringMap) -> (created: Result<OkxExchange, ExchangeError>)
        ensures
            match created {
                Ok(exchange) => configured(configs@) == Ok::<Credentials, Seq<char>>(exchange@),
                Err(error) => configured(configs@) matches Err(field)
                    && error matches ExchangeError::Configuration { field: named }
                    && named@ == field,
            },
    {
        let key = match configs.get("key") {
            Some(value) => value.clone(),
            None => {
                return Err(ExchangeError::Configuration { field: "key".to_owned() });
            },
        };
        let secret = match configs.get("secret") {
            Some(value) => value.clone(),
            None => {
                return Err(ExchangeError::Configuration { field: "secret".to_owned() });
            },
        };
        let passphrase = match configs.get("passphrase") {
            Some(value) => value.clone(),
            None => {
                return Err(ExchangeError::Configuration { field: "passphrase".to_owned() });
            },
        };
        let is_demo = match configs.get("is_demo") {
            Some(value) => str_equal(value.as_str(), "true"),
            None => false,
        };
        let base_url = "https://www.okx.com".to_owned();
        Ok(OkxExchange { key, secret, passphrase, base_url, is_demo })
    }

    /// The API key.
    pub fn key(&self) -> (key: &str)
        ensures
            key@ == self@.key,
    {
        self.key.as_str()
    }

    /// The passphrase of the API key.
    pub fn passphrase(&self) -> (passphrase: &str)
        ensures
            passphrase@ == self@.passphrase,
    {
        self.passphrase.as_str()
    }

    /// The host that requests go to.
    pub fn base_url(&self) -> (base_url: &str)
        ensures
            base_url@ == self@.base_url,
    {
        self.base_url.as_str()
    }

    /// Whether the credentials are for the sandbox.
    pub fn is_demo(&self) -> (is_demo: bool)
        ensures
            is_demo == self@.is_demo,
    {
        self.is_demo
    }

    /// Signs a request at the given time.
    pub fn sign_at(
        &self,
        timestamp: &str,
        method: &str,
        url: &str,
        query_string: &str,
        body: &str,
    ) -> (signature: String)
        ensures
            signature@ == signature_of(
                self@.secret,
                SigningParts {
                    timestamp: timestamp@,
                    method: method@,
                    request_path: url@,
                    query_string: query_string@,
                    body_string: body@,
                },
            ),
    {
        let input = SigningInput {
            timestamp: timestamp.to_owned(),
            method: method.to_owned(),
            request_path: url.to_owned(),
            query_string: query_string.to_owned(),
            body_string: body.to_owned(),
        };
        sign(self.secret.as_str(), &input)
    }

    /// Signs a request now. Returns the signature and the timestamp that
    /// was signed, which is the one to send with the request.
    pub fn generate_signature(
        &self,
        method: &str,
        url: &str,
        query_string: &str,
        body: &str,
    ) -> (signed: (String, String))
        ensures
            is_utc_millis_timestamp(signed.1@),
            signed.0@ == signature_of(
                self@.secret,
                SigningParts {
                    timestamp: signed.1@,
                    method: method@,
                    request_path: url@,
                    query_string: query_string@,
                    body_string: body@,
                },
            ),
    {
        let timestamp = current_timestamp();
        let signature = self.sign_at(timestamp.as_str(), method, url, query_string, body);
        (signature, timestamp)
    }

    /// The headers of a request with the given signature and timestamp.
    pub fn get_headers(&self, signature: &str, timestamp: &str) -> (headers: StringMap)
        ensures
            headers@ == signed_headers(self@, signature@, timestamp@),
    {
        proof {
            lemma_header_names_distinct();
        }
        let mut headers = StringMap::new();
        let ghost mut expected: Entries = Seq::empty();
        proof {
            lemma_with_new_key(expected, "Content-Type"@, "application/json"@);
            expected = expected.push(("Content-Type"@, "application/json"@));
        }
        headers.insert("Content-Type".to_owned(), "application/json".to_owned());
        proof {
            lemma_with_new_key(expected, "OK-ACCESS-KEY"@, self.key@);
            expected = expected.push(("OK-ACCESS-KEY"@, self.key@));
        }
        headers.insert("OK-ACCESS-KEY".to_owned(), self.key.clone());
        proof {
            lemma_with_new_key(expected, "OK-ACCESS-SIGN"@, signature@);
            expected = expected.push(("OK-ACCESS-SIGN"@, signature@));
        }
        headers.insert("OK-ACCESS-SIGN".to_owned(), signature.to_owned());
        proof {
            lemma_with_new_key(expected, "OK-ACCESS-TIMESTAMP"@, timestamp@);
            expected = expected.push(("OK-ACCESS-TIMESTAMP"@, timestamp@));
        }
        headers.insert("OK-ACCESS-TIMESTAMP".to_owned(), timestamp.to_owned());
        proof {
            lemma_with_new_key(expected, "OK-ACCESS-PASSPHRASE"@, self.passphrase@);
            expected = expected.push(("OK-ACCESS-PASSPHRASE"@, self.passphrase@));
        }
        headers.insert("OK-ACCESS-PASSPHRASE".to_owned(), self.passphrase.clone());
        if self.is_demo {
            proof {
                lemma_with_new_key(expected, "x-simulated-trading"@, "1"@);
                expected = expected.push(("x-simulated-trading"@, "1"@));
            }
            headers.insert("x-simulated-trading".to_owned(), "1".to_owned());
        }
        assert(expected =~= signed_headers(self@, signature@, timestamp@));
        headers
    }

    /// Puts a request together from its parts and its signature.
    fn assemble(
        &self,
        timestamp: String,
        signature: &str,
        method: &str,
        endpoint: &str,
        query_text: String,
        body_text: String,
    ) -> (request: SignedRequest)
        ensures
            request@ == (RequestParts {
                method: method@,
                url: self@.base_url + endpoint@ + query_text@,
                headers: signed_headers(self@, signature@, timestamp@),
                body: body_text@,
                timestamp: timestamp@,
            }),
    {
        let headers = self.get_headers(signature, timestamp.as_str());
        let mut url = self.base_url.clone();
        url.append(endpoint);
        url.append(query_text.as_str());
        SignedRequest { method: method.to_owned(), url, headers, body: body_text, timestamp }
    }

    /// Builds and signs a request at the given time.
    pub fn prepare_request_at(
        &self,
        timestamp: &str,
        method: &str,
        endpoint: &str,
        query: Option<&StringMap>,
        body: Option<&StringMap>,
    ) -> (request: SignedRequest)
        ensures
            request@ == signed_request(
                self@,
                timestamp@,
                method@,
                endpoint@,
                optional_entries(query),
                optional_entries(body),
            ),
    {
        let query_text = build_query_string(query);
        let body_text = build_body_string(method, body);
        let signature = self.sign_at(
            timestamp,
            method,
            endpoint,
            query_text.as_str(),
            body_text.as_str(),
        );
        self.assemble(
            timestamp.to_owned(),
            signature.as_str(),
            method,
            endpoint,
            query_text,
            body_text,
        )
    }

    /// Builds a request and signs it now: the timestamp is taken right
    /// before the signature is made, and the request holds it.
    pub fn prepare_request(
        &self,
        method: &str,
        endpoint: &str,
        query: Option<&StringMap>,
        body: Option<&StringMap>,
    ) -> (request: SignedRequest)
        ensures
            is_utc_millis_timestamp(request.timestamp@),
            request@ == signed_request(
                self@,
                request.timestamp@,
                method@,
                endpoint@,
                optional_entries(query),
                optional_entries(body),
            ),
    {
        let query_text = build_query_string(query);
        let body_text = build_body_string(method, body);
        let (signature, timestamp) = self.generate_signature(
            method,
            endpoint,
            query_text.as_str(),
            body_text.as_str(),
        );
        self.assemble(timestamp, signature.as_str(), method, endpoint, query_text, body_text)
    }

    /// The request for the balances of the account, signed now.
    pub fn balances_request(&self) -> (request: SignedRequest)
        ensures
            is_utc_millis_timestamp(request.timestamp@),
            request@ == signed_request(
                self@,
                request.timestamp@,
                "GET"@,
                balance_endpoint(),
                None,
                None,
            ),
    {
        self.prepare_request("GET", "/api/v5/account/balance", None, None)
    }

    /// Classifies the response to a request for the balances.
    pub fn read_balances(response: &RawResponse) -> (balances: Result<
        Vec<StringMap>,
        ExchangeError,
    >)
        ensures
            list_outcome(balances) == classified_list(response.status_code, response.body_text@),
            balances matches Err(error) ==> describes(error, "GET"@, *response),
    {
        read_data_list("GET", response)
    }
}

} // verus!
