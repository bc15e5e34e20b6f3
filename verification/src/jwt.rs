//! Signed tokens in two states. A `Claims<T, Encoded>` holds the opaque text
//! that travels; a `Claims<T, Decoded<T>>` holds a subject of type `T` with the
//! time it was issued at and the time it expires at. The only way from the text
//! to the subject is `decode`, which verifies the signature with the secret of
//! `T`.

use crate::adapter::{
    carried_body, fields_of, insert_integer, integer_at, malformed, sign, signature_fits,
    signed_token, take_integer, unix_now, verify, FieldValue, Fields, MAX_TIMESTAMP,
    MIN_TIMESTAMP,
};
use std::marker::PhantomData;
use vstd::prelude::*;
use vstd::std_specs::convert::{FromSpecImpl, TryFromSpecImpl};

verus! {

/// Why a token could not be made or was not accepted.
#[derive(Debug)]
pub enum TokenError {
    /// The signing primitive failed to make a token.
    Signing(jsonwebtoken::errors::Error),
    /// The token was rejected: its signature is wrong, it is malformed, it has
    /// expired, or its body is not that of a subject of the expected type.
    Verification(jsonwebtoken::errors::Error),
}

pub type ClaimsEncoded<T> = Claims<T, Encoded>;

pub type ClaimsDecoded<T> = Claims<T, Decoded<T>>;

/// A secret, as the contracts speak of it: its bytes.
pub type SecretModel = Seq<u8>;

/// The fields of a JSON object, as the contracts speak of them.
pub type FieldsModel = Map<Seq<char>, FieldValue>;

/// The name of the field that holds the time of expiry.
pub open spec fn exp_name() -> Seq<char> {
    "exp"@
}

/// The name of the field that holds the time of issue.
pub open spec fn iat_name() -> Seq<char> {
    "iat"@
}

/// The longest time to live with which a token can be issued at any time that
/// the clock can tell: `i64::MAX - MAX_TIMESTAMP`.
pub const MAX_TIME_TO_LIVE: u64 = 9_223_340_414_454_775_807;

/// What a type of subject settles for all its tokens: how long they live, the
/// secret that signs them, and how a subject is written as the fields of a JSON
/// object and read back.
///
/// The three spec functions name what the three methods return. An
/// implementation thereby promises that each method is a function of its
/// arguments: the secret is the same at every call, and so is what a subject is
/// written as and what is read from given fields.
pub trait ClaimsSubTrait: Sized {
    /// The time before expiry from now in seconds
    const DURATION: u64;

    /// The secret of this type of subject.
    spec fn signing_secret() -> SecretModel;

    /// The fields that this subject is written as.
    spec fn fields(&self) -> FieldsModel;

    /// The fields of the subject that is read from `fields`, if one is read from
    /// them.
    spec fn read(fields: FieldsModel) -> Option<FieldsModel>;

    /// The secret key used for encoding and decoding the Subject.
    fn secret<'a>() -> (secret: &'a [u8])
        ensures
            secret@ == Self::signing_secret(),
    ;

    /// Writes the subject as the fields of a JSON object.
    fn to_fields(&self) -> (written: Fields)
        ensures
            fields_of(written) == self.fields(),
    ;

    /// Reads a subject from the fields of a JSON object.
    fn from_fields(fields: Fields) -> (subject: Option<Self>)
        ensures
            match Self::read(fields_of(fields)) {
                Some(kept) => subject matches Some(read) && read.fields() == kept,
                None => subject is None,
            },
    ;
}

/// The state of a token that is an opaque signed text.
#[derive(Debug)]
pub struct Encoded(String);

/// The state of a token that is a verified subject with its two timestamps.
#[derive(Debug)]
pub struct Decoded<T: ClaimsSubTrait> {
    pub(crate) sub: T,
    exp: i64,
    iat: i64,
}

/// What a `Decoded` holds.
pub struct Envelope<T> {
    pub sub: T,
    pub iat: i64,
    pub exp: i64,
}

/// A token about a subject of type `T`, in the state `State`.
#[derive(Debug)]
pub struct Claims<T: ClaimsSubTrait, State = Decoded<T>> {
    claims: State,
    _type: PhantomData<T>,
}

/// The envelope of `sub` that is issued at `now`: it expires when the time to
/// live of `T` has passed.
pub open spec fn stamped<T: ClaimsSubTrait>(sub: T, now: i64) -> Envelope<T> {
    Envelope { sub, iat: now, exp: (now + T::DURATION) as i64 }
}

/// An envelope is issued no later than it expires, and the two times are the
/// time to live apart.
pub proof fn lemma_stamped_lives<T: ClaimsSubTrait>(sub: T, now: i64)
    requires
        now + T::DURATION <= i64::MAX,
    ensures
        stamped(sub, now).iat <= stamped(sub, now).exp,
        stamped(sub, now).exp - stamped(sub, now).iat == T::DURATION,
{
}

/// An envelope that is issued at a time between two others is issued between
/// them.
pub proof fn lemma_stamped_between<T: ClaimsSubTrait>(sub: T, now: i64, before: i64, after: i64)
    requires
        before <= now <= after,
    ensures
        before <= stamped(sub, now).iat <= after,
        stamped(sub, now).sub == sub,
{
}

/// What is signed: the fields of a subject, and beside them `exp` and `iat`.
pub open spec fn sealed(fields: FieldsModel, iat: i64, exp: i64) -> FieldsModel {
    fields.insert(exp_name(), FieldValue::Integer(exp)).insert(iat_name(), FieldValue::Integer(iat))
}

/// The body that is signed for an envelope.
pub open spec fn body_of<T: ClaimsSubTrait>(envelope: Envelope<T>) -> FieldsModel {
    sealed(envelope.sub.fields(), envelope.iat, envelope.exp)
}

/// What a body is taken apart into.
pub struct Opened {
    /// The fields of the subject.
    pub fields: FieldsModel,
    pub iat: i64,
    pub exp: i64,
}

/// Takes a body apart, if it is the body of an envelope about a `T`: `exp` and
/// `iat` are integers, `iat` is not after `exp`, and a subject is read from the
/// other fields.
pub open spec fn opened<T: ClaimsSubTrait>(body: FieldsModel) -> Option<Opened> {
    match (
        integer_at(body, exp_name()),
        integer_at(body, iat_name()),
        T::read(body.remove(exp_name()).remove(iat_name())),
    ) {
        (Some(exp), Some(iat), Some(fields)) => if iat <= exp {
            Some(Opened { fields, iat, exp })
        } else {
            None
        },
        _ => None,
    }
}

/// What `opened` makes of the body of `envelope`, where it makes anything.
pub open spec fn opening_of<T: ClaimsSubTrait>(envelope: Envelope<T>) -> Opened {
    Opened { fields: envelope.sub.fields(), iat: envelope.iat, exp: envelope.exp }
}

/// `exp` and `iat` are two names.
pub proof fn lemma_timestamp_names_differ()
    ensures
        exp_name() != iat_name(),
{
    reveal_strlit("exp");
    reveal_strlit("iat");
    assert(exp_name()[0] != iat_name()[0]);
}

/// A sealed body holds `exp` and `iat` as integers, and every other field of
/// the subject as the subject wrote it.
pub proof fn lemma_sealed_holds(fields: FieldsModel, iat: i64, exp: i64)
    ensures
        integer_at(sealed(fields, iat, exp), exp_name()) == Some(exp),
        integer_at(sealed(fields, iat, exp), iat_name()) == Some(iat),
        forall|name: Seq<char>|
            name != exp_name() && name != iat_name() && #[trigger] fields.contains_key(name)
                ==> sealed(fields, iat, exp).contains_key(name) && sealed(fields, iat, exp)[name]
                == fields[name],
        forall|name: Seq<char>| #[trigger]
            sealed(fields, iat, exp).contains_key(name) ==> name == exp_name() || name
                == iat_name() || fields.contains_key(name),
{
    lemma_timestamp_names_differ();
}

/// Taking the timestamps out of a sealed body leaves the fields of the subject,
/// but for a field of its own that it called `exp` or `iat`.
pub proof fn lemma_sealed_rest(fields: FieldsModel, iat: i64, exp: i64)
    ensures
        sealed(fields, iat, exp).remove(exp_name()).remove(iat_name()) == fields.remove(
            exp_name(),
        ).remove(iat_name()),
{
    assert(sealed(fields, iat, exp).remove(exp_name()).remove(iat_name()) =~= fields.remove(
        exp_name(),
    ).remove(iat_name()));
}

/// The body of an envelope opens to what the envelope holds: the two timestamps
/// and the fields of the subject. This asks that the subject is read back from
/// its own fields and calls none of them `exp` or `iat`.
pub proof fn lemma_body_opens<T: ClaimsSubTrait>(envelope: Envelope<T>)
    requires
        envelope.iat <= envelope.exp,
        T::read(envelope.sub.fields()) == Some(envelope.sub.fields()),
        !envelope.sub.fields().contains_key(exp_name()),
        !envelope.sub.fields().contains_key(iat_name()),
    ensures
        opened::<T>(body_of(envelope)) == Some(opening_of(envelope)),
{
    let fields = envelope.sub.fields();
    lemma_sealed_holds(fields, envelope.iat, envelope.exp);
    lemma_sealed_rest(fields, envelope.iat, envelope.exp);
    assert(fields.remove(exp_name()).remove(iat_name()) =~= fields);
}

/// What decoding gives is what was sealed, as far as the token carries the body
/// that it was made of. That it does is for the signing primitive to keep; given
/// that, an envelope that a token's body opens to has the timestamps of the
/// envelope that was sealed, and a subject with the same fields.
pub proof fn lemma_decoded_is_what_was_sealed<T: ClaimsSubTrait>(
    sealed: Envelope<T>,
    token: Seq<char>,
    decoded: Envelope<T>,
)
    requires
        sealed.iat <= sealed.exp,
        T::read(sealed.sub.fields()) == Some(sealed.sub.fields()),
        !sealed.sub.fields().contains_key(exp_name()),
        !sealed.sub.fields().contains_key(iat_name()),
        carried_body(token) == body_of(sealed),
        opened::<T>(carried_body(token)) == Some(opening_of(decoded)),
    ensures
        decoded.iat == sealed.iat,
        decoded.exp == sealed.exp,
        decoded.sub.fields() == sealed.sub.fields(),
{
    lemma_body_opens(sealed);
}

impl View for Encoded {
    type V = Seq<char>;

    closed spec fn view(&self) -> Seq<char> {
        self.0@
    }
}

impl<T: ClaimsSubTrait> View for Decoded<T> {
    type V = Envelope<T>;

    closed spec fn view(&self) -> Envelope<T> {
        Envelope { sub: self.sub, iat: self.iat, exp: self.exp }
    }
}

impl<T: ClaimsSubTrait> Decoded<T> {
    #[verifier::type_invariant]
    spec fn issued_before_expiry(self) -> bool {
        self.iat <= self.exp
    }

    /// The envelope of `sub`, issued at `now`.
    pub fn create_at(sub: T, now: i64) -> (made: Self)
        requires
            now + T::DURATION <= i64::MAX,
        ensures
            made@ == stamped(sub, now),
            made@.iat <= made@.exp,
            made@.exp - made@.iat == T::DURATION,
    {
        let exp = now.checked_add_unsigned(T::DURATION).unwrap();
        Decoded { sub, exp, iat: now }
    }

    /// The envelope of `sub`, issued at the time that the clock tells.
    pub fn create(sub: T) -> (made: Self)
        requires
            T::DURATION <= MAX_TIME_TO_LIVE,
        ensures
            made@ == stamped(sub, made@.iat),
            MIN_TIMESTAMP <= made@.iat <= MAX_TIMESTAMP,
            made@.iat <= made@.exp,
            made@.exp - made@.iat == T::DURATION,
    {
        let now = unix_now();
        Self::create_at(sub, now)
    }

    /// The subject; the envelope is used up.
    pub fn subject(self) -> (sub: T)
        ensures
            sub == self@.sub,
    {
        self.sub
    }

    /// The time of issue, in seconds since the epoch. It is never after the
    /// time of expiry.
    pub fn issued_at(&self) -> (iat: i64)
        ensures
            iat == self@.iat,
            iat <= self@.exp,
    {
        proof {
            use_type_invariant(self);
        }
        self.iat
    }

    /// The time of expiry, in seconds since the epoch. It is never before the
    /// time of issue.
    pub fn expires_at(&self) -> (exp: i64)
        ensures
            exp == self@.exp,
            self@.iat <= exp,
    {
        proof {
            use_type_invariant(self);
        }
        self.exp
    }

    /// The body to sign.
    pub fn to_body(&self) -> (body: Fields)
        ensures
            fields_of(body) == body_of(self@),
    {
        let mut body = self.sub.to_fields();
        insert_integer(&mut body, "exp", self.exp);
        insert_integer(&mut body, "iat", self.iat);
        body
    }

    /// Reads an envelope from the body of a token that passed verification.
    /// Whatever the body is, the outcome is settled by what it opens to.
    pub fn from_body(body: Fields) -> (outcome: Result<Self, TokenError>)
        ensures
            match opened::<T>(fields_of(body)) {
                Some(parts) => outcome matches Ok(read) && opening_of(read@) == parts,
                None => outcome matches Err(TokenError::Verification(_)),
            },
    {
        let mut rest = body;
        let exp = take_integer(&mut rest, "exp");
        let iat = take_integer(&mut rest, "iat");
        proof {
            lemma_timestamp_names_differ();
        }
        let sub = T::from_fields(rest);
        match (exp, iat, sub) {
            (Some(exp), Some(iat), Some(sub)) => {
                if iat <= exp {
                    Ok(Decoded { sub, exp, iat })
                } else {
                    Err(TokenError::Verification(malformed("iat is after exp")))
                }
            },
            (None, _, _) => Err(
                TokenError::Verification(malformed("exp is missing or no integer")),
            ),
            (_, None, _) => Err(
                TokenError::Verification(malformed("iat is missing or no integer")),
            ),
            (_, _, None) => Err(
                TokenError::Verification(malformed("the fields are not those of the subject")),
            ),
        }
    }
}

impl<T: ClaimsSubTrait> View for Claims<T, Encoded> {
    type V = Seq<char>;

    closed spec fn view(&self) -> Seq<char> {
        self.claims@
    }
}

impl<T: ClaimsSubTrait> View for Claims<T, Decoded<T>> {
    type V = Envelope<T>;

    closed spec fn view(&self) -> Envelope<T> {
        self.claims@
    }
}

impl<T: ClaimsSubTrait> Claims<T> {
    /// A signed token about `claims`, issued at `now`.
    pub fn new_at(claims: T, now: i64) -> (outcome: Result<Claims<T, Encoded>, TokenError>)
        requires
            now + T::DURATION <= i64::MAX,
        ensures
            match signed_token(body_of(stamped(claims, now)), T::signing_secret()) {
                Some(token) => outcome matches Ok(encoded) && encoded@ == token,
                None => outcome matches Err(TokenError::Signing(_)),
            },
    {
        Claims::from_envelope(Decoded::create_at(claims, now)).encode()
    }

    /// A signed token about `claims`, issued at the time that the clock tells:
    /// for some time that the clock can tell, the outcome is what `new_at`
    /// gives at that time.
    pub fn new(claims: T) -> (outcome: Result<Claims<T, Encoded>, TokenError>)
        requires
            T::DURATION <= MAX_TIME_TO_LIVE,
        ensures
            exists|now: i64|
                MIN_TIMESTAMP <= now <= MAX_TIMESTAMP && match #[trigger] signed_token(
                    body_of(stamped(claims, now)),
                    T::signing_secret(),
                ) {
                    Some(token) => outcome matches Ok(encoded) && encoded@ == token,
                    None => outcome matches Err(TokenError::Signing(_)),
                },
    {
        let now = unix_now();
        Self::new_at(claims, now)
    }
}

impl<T: ClaimsSubTrait> Claims<T, Encoded> {
    /// The text of the token; the token is used up.
    pub fn token(self) -> (text: String)
        ensures
            text@ == self@,
    {
        self.claims.0
    }

    /// Verifies the token with the secret of `T`, at the time of the call, and
    /// reads its body. Which tokens pass is for the verifying primitive and
    /// its clock to say, but none passes whose signature does not fit the
    /// secret of `T`. What is made of the primitive's answer is what `accept`
    /// makes of it: one that passes gives the envelope that its body opens to,
    /// and one whose body does not open is rejected.
    pub fn decode(self) -> (outcome: Result<Claims<T, Decoded<T>>, TokenError>)
        ensures
            outcome is Ok ==> signature_fits(self@, T::signing_secret()),
            outcome matches Ok(decoded) ==> opened::<T>(carried_body(self@)) == Some(
                opening_of(decoded@),
            ),
            outcome matches Err(error) ==> error is Verification,
    {
        let token = self.claims.0;
        let secret = T::secret();
        Claims::accept(verify(token.as_str(), secret))
    }

    /// The token that the signing primitive answered with, or its failure as
    /// it is.
    pub fn from_signed(answer: Result<String, jsonwebtoken::errors::Error>) -> (outcome: Result<
        Self,
        TokenError,
    >)
        ensures
            match answer {
                Ok(text) => outcome matches Ok(encoded) && encoded@ == text@,
                Err(cause) => outcome matches Err(TokenError::Signing(kept)) && kept == cause,
            },
    {
        match answer {
            Ok(text) => Ok(Claims { claims: Encoded(text), _type: PhantomData }),
            Err(cause) => Err(TokenError::Signing(cause)),
        }
    }

    /// The token whose text is `text`.
    pub closed spec fn of_text(text: String) -> Self {
        Claims { claims: Encoded(text), _type: PhantomData }
    }

    /// A token made of a text holds that text, whatever the text is.
    pub proof fn lemma_text_is_kept(text: String)
        ensures
            Self::of_text(text)@ == text@,
    {
    }
}

impl<T: ClaimsSubTrait> Claims<T, Decoded<T>> {
    /// The token that holds `envelope`.
    pub fn from_envelope(envelope: Decoded<T>) -> (claims: Self)
        ensures
            claims@ == envelope@,
    {
        Claims { claims: envelope, _type: PhantomData }
    }

    /// Signs the envelope with the secret of `T`. What is made of the
    /// primitive's answer is what `from_signed` makes of it.
    pub fn encode(self) -> (outcome: Result<Claims<T, Encoded>, TokenError>)
        ensures
            match signed_token(body_of(self@), T::signing_secret()) {
                Some(token) => outcome matches Ok(encoded) && encoded@ == token,
                None => outcome matches Err(TokenError::Signing(_)),
            },
    {
        let body = self.claims.to_body();
        let secret = T::secret();
        Claims::from_signed(sign(&body, secret))
    }

    /// The token that the verifying primitive's answer stands for. A body
    /// that it accepted gives the envelope that the body opens to, or is
    /// rejected where it does not open; a failure of the primitive is passed on
    /// as it is.
    pub fn accept(answer: Result<Fields, jsonwebtoken::errors::Error>) -> (outcome: Result<
        Self,
        TokenError,
    >)
        ensures
            match answer {
                Ok(body) => match opened::<T>(fields_of(body)) {
                    Some(parts) => outcome matches Ok(decoded) && opening_of(decoded@) == parts,
                    None => outcome matches Err(TokenError::Verification(_)),
                },
                Err(cause) => outcome matches Err(TokenError::Verification(kept)) && kept == cause,
            },
    {
        match answer {
            Ok(body) => match Decoded::from_body(body) {
                Ok(envelope) => Ok(Claims::from_envelope(envelope)),
                Err(error) => Err(error),
            },
            Err(cause) => Err(TokenError::Verification(cause)),
        }
    }

    /// The envelope; the token is used up.
    pub fn claims(self) -> (envelope: Decoded<T>)
        ensures
            envelope@ == self@,
    {
        self.claims
    }

    /// The subject; the token is used up.
    pub fn sub(self) -> (subject: T)
        ensures
            subject == self@.sub,
    {
        self.claims.sub
    }
}

impl<T: ClaimsSubTrait> From<String> for Claims<T, Encoded> {
    /// Takes `value` as the text of a token, without looking at it.
    fn from(value: String) -> (encoded: Self)
        ensures
            encoded@ == value@,
    {
        Self { claims: Encoded(value), _type: PhantomData }
    }
}

/// `Claims::from` is the function `of_text`.
impl<T: ClaimsSubTrait> FromSpecImpl<String> for Claims<T, Encoded> {
    open spec fn obeys_from_spec() -> bool {
        true
    }

    open spec fn from_spec(value: String) -> Self {
        Self::of_text(value)
    }
}

impl<T: ClaimsSubTrait> TryFrom<String> for Claims<T, Decoded<T>> {
    type Error = TokenError;

    /// Takes `token` as the text of a token and decodes it.
    fn try_from(token: String) -> (outcome: Result<Self, TokenError>)
        ensures
            outcome is Ok ==> signature_fits(token@, T::signing_secret()),
            outcome matches Ok(decoded) ==> opened::<T>(carried_body(token@)) == Some(
                opening_of(decoded@),
            ),
            outcome matches Err(error) ==> error is Verification,
    {
        let claims: Claims<T, Encoded> = From::from(token);
        claims.decode()
    }
}

/// Decoding asks the clock, so `try_from` is no function of the text: it obeys
/// no spec function, and the one given here says nothing.
impl<T: ClaimsSubTrait> TryFromSpecImpl<String> for Claims<T, Decoded<T>> {
    open spec fn obeys_try_from_spec() -> bool {
        false
    }

    open spec fn try_from_spec(token: String) -> Result<Self, TokenError> {
        arbitrary()
    }
}

} // verus!
