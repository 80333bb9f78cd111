//! The credential endpoint: who may ask, what the issuer is asked, and what
//! is answered.

use crate::state::AppState;
use crate::time::{ends_in_z, Timestamp};
use crate::token::is_generated_token;
use vstd::prelude::*;
use vstd::string::StringExecFns;
use vstd::utf8::*;

verus! {

/// The status codes that the endpoint answers with.
#[derive(Debug, Clone, Copy, PartialEq, Eq, Structural)]
pub enum StatusCode {
    Success,
    BadRequest,
    Forbidden,
    BadGateway,
}

impl StatusCode {
    /// The number of the status code.
    pub open spec fn spec_as_u16(&self) -> u16 {
        match self {
            StatusCode::Success => 200,
            StatusCode::BadRequest => 400,
            StatusCode::Forbidden => 403,
            StatusCode::BadGateway => 502,
        }
    }

    /// The number of the status code.
    #[verifier::when_used_as_spec(spec_as_u16)]
    pub fn as_u16(&self) -> (code: u16)
        ensures
            code == self.spec_as_u16(),
    {
        match self {
            StatusCode::Success => 200,
            StatusCode::BadRequest => 400,
            StatusCode::Forbidden => 403,
            StatusCode::BadGateway => 502,
        }
    }
}

/// The name of the header that carries the token.
pub const AUTHORIZATION: &'static str = "authorization";

/// `byte` is a visible ASCII character, a space or a tab.
pub open spec fn is_visible_ascii(byte: u8) -> bool {
    32 <= byte < 127 || byte == 9
}

/// The value of a header can be read as text: all of it is visible ASCII.
pub open spec fn is_text(value: Seq<u8>) -> bool {
    forall|i: int| 0 <= i < value.len() ==> is_visible_ascii(#[trigger] value[i])
}

/// Why a request is turned away, with the status and the message of the
/// answer; `None` where it is let through. `header` is the value of the
/// request's `Authorization` header, if it has one.
pub open spec fn rejection(header: Option<Seq<u8>>, auth_token: Seq<char>) -> Option<
    (StatusCode, Seq<char>),
> {
    match header {
        None => Some((StatusCode::BadRequest, "Missing authorization header"@)),
        Some(value) => if !is_text(value) {
            Some((StatusCode::BadRequest, "Invalid authorization header"@))
        } else if value != encode_utf8(auth_token) {
            Some((StatusCode::Forbidden, "Invalid authorization token"@))
        } else {
            None
        },
    }
}

/// Tells whether all of `value` is visible ASCII.
fn value_is_text(value: &[u8]) -> (text: bool)
    ensures
        text == is_text(value@),
{
    let mut i: usize = 0;
    while i < value.len()
        invariant
            i <= value.len(),
            forall|j: int| 0 <= j < i ==> is_visible_ascii(#[trigger] value@[j]),
        decreases value.len() - i,
    {
        let byte = value[i];
        if !(32 <= byte && byte < 127 || byte == 9) {
            return false;
        }
        i = i + 1;
    }
    true
}

/// Tells whether two runs of bytes are the same.
fn same_bytes(left: &[u8], right: &[u8]) -> (same: bool)
    ensures
        same == (left@ == right@),
{
    if left.len() != right.len() {
        return false;
    }
    let mut i: usize = 0;
    while i < left.len()
        invariant
            i <= left.len(),
            left.len() == right.len(),
            forall|j: int| 0 <= j < i ==> left@[j] == right@[j],
        decreases left.len() - i,
    {
        if left[i] != right[i] {
            return false;
        }
        i = i + 1;
    }
    assert(left@ =~= right@);
    true
}

/// The proof that a request carried the shared token. Only
/// [`AuthorizationHeader::from_request_parts`] makes one.
#[derive(Debug)]
pub struct AuthorizationHeader {
    checked: (),
}

impl AuthorizationHeader {
    /// Checks the `Authorization` header of a request against the shared
    /// token. A request without the header, or with one that is not text, is
    /// a bad request; one with another token is forbidden.
    pub fn from_request_parts<C>(header: Option<&[u8]>, state: &AppState<C>) -> (checked: Result<
        Self,
        (StatusCode, &'static str),
    >)
        ensures
            match rejection(
                match header {
                    Some(value) => Some(value@),
                    None => None,
                },
                state.auth_token@,
            ) {
                None => checked is Ok,
                Some((status, message)) => checked matches Err(refusal) && refusal.0 == status
                    && refusal.1@ == message,
            },
    {
        match header {
            None => Err((StatusCode::BadRequest, "Missing authorization header")),
            Some(value) => {
                if !value_is_text(value) {
                    Err((StatusCode::BadRequest, "Invalid authorization header"))
                } else if !same_bytes(value, state.auth_token.as_str().as_bytes()) {
                    Err((StatusCode::Forbidden, "Invalid authorization token"))
                } else {
                    Ok(AuthorizationHeader { checked: () })
                }
            },
        }
    }
}

/// What the issuer is asked: the role to assume and the name of the session.
#[derive(Debug)]
pub struct AssumeRoleInput {
    pub role_arn: String,
    pub role_session_name: String,
}

/// Temporary credentials as the issuer hands them out.
#[derive(Debug)]
pub struct Credentials {
    pub access_key_id: String,
    pub secret_access_key: String,
    pub session_token: String,
    pub expiration: Timestamp,
}

/// What the issuer answers when it does not fail: credentials, or nothing.
#[derive(Debug)]
pub struct AssumeRoleOutput {
    pub credentials: Option<Credentials>,
}

/// A failure of the issuer. What went wrong is not told to the caller of
/// the endpoint, so nothing of it is kept.
#[derive(Debug)]
pub struct ProviderError {}

/// The body of a successful answer.
#[derive(Debug)]
pub struct ContainerCredentialsProviderResponse {
    pub access_key_id: String,
    pub secret_access_key: String,
    pub token: String,
    /// The end of validity in UTC, as RFC 3339 text with `Z` for the zone.
    pub expiration: String,
    pub role_arn: String,
}

/// Credentials as plain text and numbers.
pub ghost struct CredentialsView {
    pub access_key_id: Seq<char>,
    pub secret_access_key: Seq<char>,
    pub session_token: Seq<char>,
    pub expiration: Timestamp,
}

impl View for Credentials {
    type V = CredentialsView;

    open spec fn view(&self) -> CredentialsView {
        CredentialsView {
            access_key_id: self.access_key_id@,
            secret_access_key: self.secret_access_key@,
            session_token: self.session_token@,
            expiration: self.expiration,
        }
    }
}

/// The body of a successful answer as plain text.
pub ghost struct ResponseView {
    pub access_key_id: Seq<char>,
    pub secret_access_key: Seq<char>,
    pub token: Seq<char>,
    pub expiration: Seq<char>,
    pub role_arn: Seq<char>,
}

impl View for ContainerCredentialsProviderResponse {
    type V = ResponseView;

    open spec fn view(&self) -> ResponseView {
        ResponseView {
            access_key_id: self.access_key_id@,
            secret_access_key: self.secret_access_key@,
            token: self.token@,
            expiration: self.expiration@,
            role_arn: self.role_arn@,
        }
    }
}

/// The members of the body, by the names under which clients look for
/// them, in the order in which they are written.
pub open spec fn response_members(body: ResponseView) -> Seq<(Seq<char>, Seq<char>)> {
    seq![
        ("AccessKeyId"@, body.access_key_id),
        ("SecretAccessKey"@, body.secret_access_key),
        ("Token"@, body.token),
        ("Expiration"@, body.expiration),
        ("RoleArn"@, body.role_arn),
    ]
}

/// The body that answers with `credentials` for the role `role_arn`, where
/// `expiration` is the end of their validity as text.
pub open spec fn response_for(
    credentials: CredentialsView,
    expiration: Seq<char>,
    role_arn: Seq<char>,
) -> ResponseView {
    ResponseView {
        access_key_id: credentials.access_key_id,
        secret_access_key: credentials.secret_access_key,
        token: credentials.session_token,
        expiration,
        role_arn,
    }
}

/// The credentials that the issuer handed out, if it did: `None` where it
/// failed and where it answered without credentials.
pub open spec fn issued(result: Result<AssumeRoleOutput, ProviderError>) -> Option<
    CredentialsView,
> {
    match result {
        Ok(output) => match output.credentials {
            Some(credentials) => Some(credentials@),
            None => None,
        },
        Err(_) => None,
    }
}

/// The answer to a request that was let through: the body made of the
/// credentials that the issuer handed out, and a bad gateway where it
/// handed out none, or some whose end of validity has no date.
pub open spec fn reply(issued: Option<CredentialsView>, role_arn: Seq<char>) -> Result<
    ResponseView,
    StatusCode,
> {
    match issued {
        None => Err(StatusCode::BadGateway),
        Some(credentials) => match credentials.expiration.rfc3339() {
            Some(expiration) => Ok(response_for(credentials, expiration, role_arn)),
            None => Err(StatusCode::BadGateway),
        },
    }
}

impl ContainerCredentialsProviderResponse {
    /// The body that answers with `credentials` for the role `role_arn`,
    /// where `expiration` is the end of their validity as text.
    pub fn new(credentials: Credentials, expiration: String, role_arn: String) -> (body: Self)
        ensures
            body@ == response_for(credentials@, expiration@, role_arn@),
    {
        ContainerCredentialsProviderResponse {
            access_key_id: credentials.access_key_id,
            secret_access_key: credentials.secret_access_key,
            token: credentials.session_token,
            expiration,
            role_arn,
        }
    }

    /// The members of the body as pairs of name and value, ready to be
    /// written as a JSON object.
    pub fn members(&self) -> (members: Vec<(String, String)>)
        ensures
            members.deep_view() == response_members(self@),
    {
        let mut members: Vec<(String, String)> = Vec::new();
        members.push((String::from_str("AccessKeyId"), self.access_key_id.clone()));
        members.push((String::from_str("SecretAccessKey"), self.secret_access_key.clone()));
        members.push((String::from_str("Token"), self.token.clone()));
        members.push((String::from_str("Expiration"), self.expiration.clone()));
        members.push((String::from_str("RoleArn"), self.role_arn.clone()));
        members
    }
}

/// What the issuer is asked on behalf of a request that carried the token:
/// to assume the configured role under the configured session name.
pub fn assume_role_input<C>(state: &AppState<C>, _checked: &AuthorizationHeader) -> (input:
    AssumeRoleInput)
    ensures
        input.role_arn@ == state.role_arn@,
        input.role_session_name@ == state.role_session_name@,
{
    AssumeRoleInput {
        role_arn: state.role_arn.clone(),
        role_session_name: state.role_session_name.clone(),
    }
}

/// The body that answers with `credentials` for the role `role_arn`. The end
/// of their validity must have a date.
pub fn transform_credential(credentials: Credentials, role_arn: String) -> (body:
    ContainerCredentialsProviderResponse)
    requires
        credentials.expiration.rfc3339() is Some,
    ensures
        body@ == response_for(credentials@, credentials.expiration.rfc3339()->0, role_arn@),
        ends_in_z(body@.expiration),
{
    let expiration = credentials.expiration.to_rfc3339().unwrap();
    ContainerCredentialsProviderResponse::new(credentials, expiration, role_arn)
}

/// Answers a request that carried the token, given what the issuer said to
/// [`assume_role_input`]: the body made of the credentials it handed out,
/// with the end of their validity as RFC 3339 text in UTC. Where the issuer
/// failed, handed out no credentials, or handed out some whose end of
/// validity has no date, the answer is a bad gateway.
pub fn get_credentials_handler<C>(
    state: &AppState<C>,
    _checked: AuthorizationHeader,
    result: Result<AssumeRoleOutput, ProviderError>,
) -> (answer: Result<ContainerCredentialsProviderResponse, StatusCode>)
    ensures
        match reply(issued(result), state.role_arn@) {
            Err(status) => answer == Err::<ContainerCredentialsProviderResponse, StatusCode>(
                status,
            ),
            Ok(body) => answer matches Ok(written) && written@ == body && ends_in_z(
                written@.expiration,
            ),
        },
{
    match result {
        Ok(AssumeRoleOutput { credentials: Some(credentials) }) => {
            if credentials.expiration.to_rfc3339().is_some() {
                Ok(transform_credential(credentials, state.role_arn.clone()))
            } else {
                Err(StatusCode::BadGateway)
            }
        },
        _ => Err(StatusCode::BadGateway),
    }
}

/// The status of the answer to a request, from its `Authorization` header
/// and from what the issuer hands out when it is asked.
pub open spec fn answer_status(
    header: Option<Seq<u8>>,
    auth_token: Seq<char>,
    issued: Option<CredentialsView>,
) -> StatusCode {
    match rejection(header, auth_token) {
        Some((status, _)) => status,
        None => match reply(issued, Seq::empty()) {
            Ok(_) => StatusCode::Success,
            Err(status) => status,
        },
    }
}

/// `text` can be the value of a header: all of it is visible ASCII.
pub open spec fn is_visible_text(text: Seq<char>) -> bool {
    forall|i: int|
        0 <= i < text.len() ==> ' ' <= #[trigger] text[i] <= '~' || text[i] == '\t'
}

/// The value of a header read as text, one character for each byte.
pub open spec fn text_of(value: Seq<u8>) -> Seq<char> {
    Seq::new(value.len(), |i: int| value[i] as char)
}

/// A header value that is text carries the token exactly when, read as
/// text, it is the token.
pub proof fn lemma_text_carries_token(value: Seq<u8>, auth_token: Seq<char>)
    requires
        is_text(value),
    ensures
        value == encode_utf8(auth_token) <==> text_of(value) == auth_token,
        encode_utf8(text_of(value)) == value,
{
    let text = text_of(value);
    assert(is_ascii_chars(text));
    is_ascii_chars_encode_utf8(text);
    assert(encode_utf8(text) =~= value);
    encode_utf8_decode_utf8(text);
    encode_utf8_decode_utf8(auth_token);
}

/// Text that can be the value of a header is sent as bytes that are read
/// back as the same text.
pub proof fn lemma_visible_text_is_sent_as_text(text: Seq<char>)
    requires
        is_visible_text(text),
    ensures
        is_text(encode_utf8(text)),
        text_of(encode_utf8(text)) == text,
{
    assert(is_ascii_chars(text));
    is_ascii_chars_encode_utf8(text);
    assert(text_of(encode_utf8(text)) =~= text);
}

/// A generated token can be presented: it is visible text.
pub proof fn lemma_generated_token_is_visible_text(token: Seq<char>)
    requires
        is_generated_token(token),
    ensures
        is_visible_text(token),
{
}

/// Every request is answered, and with one of four statuses. Success is
/// the answer only to a request whose header is the token, as text, and
/// for which the issuer hands out credentials whose end of validity has a
/// date; and to every such request.
pub proof fn lemma_four_statuses(
    header: Option<Seq<u8>>,
    auth_token: Seq<char>,
    issued: Option<CredentialsView>,
)
    ensures
        answer_status(header, auth_token, issued).as_u16() == 200 || answer_status(
            header,
            auth_token,
            issued,
        ).as_u16() == 400 || answer_status(header, auth_token, issued).as_u16() == 403
            || answer_status(header, auth_token, issued).as_u16() == 502,
        answer_status(header, auth_token, issued) == StatusCode::Success <==> {
            &&& header is Some
            &&& is_text(header->0)
            &&& text_of(header->0) == auth_token
            &&& issued is Some
            &&& issued->0.expiration.rfc3339() is Some
        },
{
    if header is Some && is_text(header->0) {
        lemma_text_carries_token(header->0, auth_token);
    }
}

/// The token decides. A request that presents another text than the token
/// is forbidden, whatever the issuer would say. A request that presents the
/// token is let through, and is answered with success where the issuer
/// hands out credentials whose end of validity has a date.
pub proof fn lemma_token_decides(
    auth_token: Seq<char>,
    presented: Seq<char>,
    issued: Option<CredentialsView>,
)
    requires
        is_visible_text(presented),
    ensures
        presented != auth_token ==> answer_status(
            Some(encode_utf8(presented)),
            auth_token,
            issued,
        ) == StatusCode::Forbidden,
        presented == auth_token ==> rejection(Some(encode_utf8(presented)), auth_token) is None,
        presented == auth_token && issued is Some && issued->0.expiration.rfc3339() is Some
            ==> answer_status(Some(encode_utf8(presented)), auth_token, issued)
            == StatusCode::Success,
{
    lemma_visible_text_is_sent_as_text(presented);
    lemma_text_carries_token(encode_utf8(presented), auth_token);
}

/// A request without the header is a bad request, and so is one whose
/// header is not text: one that holds a byte that is not visible ASCII, as
/// every value does that is not UTF-8.
pub proof fn lemma_bad_requests(
    header: Option<Seq<u8>>,
    auth_token: Seq<char>,
    issued: Option<CredentialsView>,
)
    ensures
        header is None ==> answer_status(header, auth_token, issued) == StatusCode::BadRequest,
        header is Some && !is_text(header->0) ==> answer_status(header, auth_token, issued)
            == StatusCode::BadRequest,
        header is Some && !valid_utf8(header->0) ==> !is_text(header->0),
{
    if header is Some && is_text(header->0) {
        lemma_text_carries_token(header->0, auth_token);
        encode_utf8_valid_utf8(text_of(header->0));
    }
}

/// While the issuer hands out nothing, every request that carries the token
/// is answered with a bad gateway, however many there are.
pub proof fn lemma_failing_issuer(headers: Seq<Option<Seq<u8>>>, auth_token: Seq<char>)
    ensures
        forall|i: int|
            0 <= i < headers.len() && rejection(#[trigger] headers[i], auth_token) is None
                ==> answer_status(headers[i], auth_token, None) == StatusCode::BadGateway,
{
}

/// Credentials whose end of validity has no date are as good as none: a
/// request that carries the token is answered with a bad gateway.
pub proof fn lemma_undatable_credentials(
    header: Option<Seq<u8>>,
    auth_token: Seq<char>,
    credentials: CredentialsView,
    role_arn: Seq<char>,
)
    requires
        rejection(header, auth_token) is None,
        credentials.expiration.rfc3339() is None,
    ensures
        answer_status(header, auth_token, Some(credentials)) == StatusCode::BadGateway,
        reply(Some(credentials), role_arn) == Err::<ResponseView, StatusCode>(
            StatusCode::BadGateway,
        ),
{
}

/// Two requests do not touch each other: the body of each answer is made
/// of the credentials that the issuer handed out for that request and of
/// the role of the state it was served from, and of nothing else.
pub proof fn lemma_answers_are_independent(
    first: CredentialsView,
    first_role: Seq<char>,
    second: CredentialsView,
    second_role: Seq<char>,
)
    requires
        first.expiration.rfc3339() is Some,
        second.expiration.rfc3339() is Some,
    ensures
        reply(Some(first), first_role) == Ok::<ResponseView, StatusCode>(
            response_for(first, first.expiration.rfc3339()->0, first_role),
        ),
        reply(Some(second), second_role) == Ok::<ResponseView, StatusCode>(
            response_for(second, second.expiration.rfc3339()->0, second_role),
        ),
        reply(Some(first), first_role) == reply(Some(first), second_role) <==> first_role
            == second_role,
{
}

} // verus!
