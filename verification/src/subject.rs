//! A subject ready for use: who the token is about, by identifier and by name.

use crate::adapter::{insert_text, no_fields, nothing, take_text, text_at, FieldValue, Fields};
use crate::jwt::{
    body_of, exp_name, iat_name, lemma_body_opens, opened, opening_of, ClaimsSubTrait, Envelope,
    FieldsModel, SecretModel,
};
use vstd::prelude::*;
use vstd::string::StringSliceAdditionalSpecFns;

verus! {

/// Who a token is about. Its tokens live for a day.
#[derive(Debug)]
pub struct Subject1 {
    pub sub: String,
    pub name: String,
}

/// The name of the field that holds the identifier.
pub open spec fn sub_name() -> Seq<char> {
    "sub"@
}

/// The name of the field that holds the name.
pub open spec fn name_name() -> Seq<char> {
    "name"@
}

/// The four field names that matter here differ from each other.
pub proof fn lemma_names_differ()
    ensures
        sub_name() != name_name(),
        sub_name() != exp_name(),
        sub_name() != iat_name(),
        name_name() != exp_name(),
        name_name() != iat_name(),
        exp_name() != iat_name(),
{
    reveal_strlit("sub");
    reveal_strlit("name");
    reveal_strlit("exp");
    reveal_strlit("iat");
    assert(sub_name()[0] != name_name()[0]);
    assert(sub_name()[0] != exp_name()[0]);
    assert(sub_name()[0] != iat_name()[0]);
    assert(name_name()[0] != exp_name()[0]);
    assert(name_name()[0] != iat_name()[0]);
    assert(exp_name()[0] != iat_name()[0]);
}

impl Subject1 {
    /// The subject with the identifier `sub` and the name `name`.
    pub fn new(sub: String, name: String) -> (made: Self)
        ensures
            made.sub == sub,
            made.name == name,
    {
        Self { sub, name }
    }
}

impl ClaimsSubTrait for Subject1 {
    const DURATION: u64 = 24 * 60 * 60;

    open spec fn signing_secret() -> SecretModel {
        "secret".spec_bytes()
    }

    open spec fn fields(&self) -> FieldsModel {
        nothing().insert(sub_name(), FieldValue::Text(self.sub@)).insert(
            name_name(),
            FieldValue::Text(self.name@),
        )
    }

    /// A subject is read from any fields among which `sub` and `name` hold
    /// strings; what else there is, is left aside.
    open spec fn read(fields: FieldsModel) -> Option<FieldsModel> {
        match (text_at(fields, sub_name()), text_at(fields, name_name())) {
            (Some(sub), Some(name)) => Some(
                nothing().insert(sub_name(), FieldValue::Text(sub)).insert(
                    name_name(),
                    FieldValue::Text(name),
                ),
            ),
            _ => None,
        }
    }

    fn secret<'a>() -> (secret: &'a [u8]) {
        "secret".as_bytes()
    }

    fn to_fields(&self) -> (written: Fields) {
        let mut written = no_fields();
        insert_text(&mut written, "sub", self.sub.as_str());
        insert_text(&mut written, "name", self.name.as_str());
        written
    }

    fn from_fields(fields: Fields) -> (subject: Option<Self>) {
        proof {
            lemma_names_differ();
        }
        let mut rest = fields;
        let sub = take_text(&mut rest, "sub");
        let name = take_text(&mut rest, "name");
        match (sub, name) {
            (Some(sub), Some(name)) => Some(Subject1 { sub, name }),
            _ => None,
        }
    }
}

/// A subject is read back from the fields that it is written as, and none of
/// these fields is `exp` or `iat`.
pub proof fn lemma_subject1_reads_back(subject: Subject1)
    ensures
        Subject1::read(subject.fields()) == Some(subject.fields()),
        !subject.fields().contains_key(exp_name()),
        !subject.fields().contains_key(iat_name()),
{
    lemma_names_differ();
}

/// The body of an envelope about a `Subject1` opens to what the envelope holds.
pub proof fn lemma_subject1_body_opens(envelope: Envelope<Subject1>)
    requires
        envelope.iat <= envelope.exp,
    ensures
        opened::<Subject1>(body_of(envelope)) == Some(opening_of(envelope)),
{
    lemma_subject1_reads_back(envelope.sub);
    lemma_body_opens(envelope);
}

/// A token about a `Subject1` lives for a day.
pub proof fn lemma_subject1_lives_a_day()
    ensures
        Subject1::DURATION == 86_400,
{
}

} // verus!
