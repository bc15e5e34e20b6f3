//! A second sketch: one wrapper type with two states, `Decoded` and `Encoded`,
//! where each state offers only the operations that make sense in it.

use crate::decimal::{
    decimal, from_decimal, lemma_parse_decimal_of_decimal, parse_usize, to_decimal,
};
use std::marker::PhantomData;
use vstd::prelude::*;

verus! {

/// The state of a secret that is held as text.
pub struct Encoded(pub String);

/// The state of a secret that is held as a value.
pub struct Decoded<T>(pub T);

/// A secret of type `T`, in the state `State`.
pub struct Secret<T: SecretTrait, State = Decoded<T>> {
    pub content: State,
    pub _type: PhantomData<T>,
}

/// A value that has a text form.
pub trait Serialize: Sized + View {
    /// The text form of `value`.
    spec fn serialized(value: Self::V) -> Seq<char>;

    /// The text form of the value.
    fn serialize(self) -> (text: String)
        ensures
            text@ == Self::serialized(self@),
    ;
}

/// A value that can be read from its text form.
pub trait Deserialize: Sized + View {
    /// The value that `text` is the form of, if it is the form of one.
    spec fn deserialized(text: Seq<char>) -> Option<Self::V>;

    /// The value that `value` is the text form of. It has to be the form of
    /// one.
    fn deserialize(value: String) -> (read: Self)
        requires
            Self::deserialized(value@) is Some,
        ensures
            Self::deserialized(value@) == Some(read@),
    ;
}

/// A value that can be kept as a `Secret`: reading its text form gives it back,
/// and a clone of it is the same value.
pub trait SecretTrait: Serialize + Deserialize + Clone {
    /// Reading the text form of a value gives the value back.
    proof fn lemma_round_trip(value: Self::V)
        ensures
            Self::deserialized(Self::serialized(value)) == Some(value),
    ;

    /// A clone is the value that it was cloned from.
    proof fn lemma_clone_is_same(source: &Self, copy: Self)
        requires
            cloned(*source, copy),
        ensures
            copy@ == source@,
    ;
}

impl<T: SecretTrait> Secret<T> {
    /// A secret in its decoded state.
    pub fn new(secret: T) -> (made: Secret<T, Decoded<T>>)
        ensures
            made.content.0 == secret,
    {
        Secret { content: Decoded(secret), _type: PhantomData }
    }
}

impl<T: SecretTrait> Secret<T, Encoded> {
    /// Reads the secret back from its text.
    pub fn decode(self) -> (decoded: Secret<T, Decoded<T>>)
        requires
            T::deserialized(self.content.0@) is Some,
        ensures
            T::deserialized(self.content.0@) == Some(decoded.content.0@),
    {
        let string = self.content.0;
        Secret { content: Decoded(T::deserialize(string)), _type: PhantomData }
    }

    /// The text that stands for the secret.
    pub fn encoded_secret(&self) -> (text: String)
        ensures
            text@ == self.content.0@,
    {
        self.content.0.clone()
    }
}

impl<T: SecretTrait> Secret<T, Decoded<T>> {
    /// Turns the secret into its text.
    pub fn encode(self) -> (encoded: Secret<T, Encoded>)
        ensures
            encoded.content.0@ == T::serialized(self.content.0@),
    {
        let serialized = T::serialize(self.content.0);
        Secret { content: Encoded(serialized), _type: PhantomData }
    }

    /// A copy of the secret.
    pub fn secret(&self) -> (copy: T)
        ensures
            copy@ == self.content.0@,
    {
        let copy = self.content.0.clone();
        proof {
            T::lemma_clone_is_same(&self.content.0, copy);
        }
        copy
    }
}

/// A secret that is a text.
#[derive(Debug, PartialEq)]
pub struct Secret1(pub String);

/// A secret that is a number.
#[derive(Debug, PartialEq)]
pub struct Secret2(pub usize);

impl View for Secret1 {
    type V = Seq<char>;

    open spec fn view(&self) -> Seq<char> {
        self.0@
    }
}

impl View for Secret2 {
    type V = usize;

    open spec fn view(&self) -> usize {
        self.0
    }
}

impl Clone for Secret1 {
    fn clone(&self) -> (copy: Self)
        ensures
            copy@ == self@,
    {
        Secret1(self.0.clone())
    }
}

impl Clone for Secret2 {
    fn clone(&self) -> (copy: Self)
        ensures
            copy@ == self@,
    {
        Secret2(self.0)
    }
}

impl Deserialize for Secret1 {
    open spec fn deserialized(text: Seq<char>) -> Option<Seq<char>> {
        Some(text)
    }

    fn deserialize(value: String) -> (read: Self) {
        Secret1(value)
    }
}

impl Serialize for Secret1 {
    open spec fn serialized(value: Seq<char>) -> Seq<char> {
        value
    }

    fn serialize(self) -> (text: String) {
        self.0
    }
}

impl Deserialize for Secret2 {
    open spec fn deserialized(text: Seq<char>) -> Option<usize> {
        parse_usize(text)
    }

    fn deserialize(value: String) -> (read: Self) {
        Secret2(from_decimal(value.as_str()).unwrap())
    }
}

impl Serialize for Secret2 {
    open spec fn serialized(value: usize) -> Seq<char> {
        decimal(value as nat)
    }

    fn serialize(self) -> (text: String) {
        to_decimal(self.0)
    }
}

impl Deserialize for usize {
    open spec fn deserialized(text: Seq<char>) -> Option<usize> {
        parse_usize(text)
    }

    fn deserialize(value: String) -> (read: Self) {
        from_decimal(value.as_str()).unwrap()
    }
}

impl Serialize for usize {
    open spec fn serialized(value: usize) -> Seq<char> {
        decimal(value as nat)
    }

    fn serialize(self) -> (text: String) {
        to_decimal(self)
    }
}

impl SecretTrait for Secret1 {
    proof fn lemma_round_trip(value: Seq<char>) {
    }

    proof fn lemma_clone_is_same(source: &Self, copy: Self) {
    }
}

impl SecretTrait for Secret2 {
    proof fn lemma_round_trip(value: usize) {
        lemma_parse_decimal_of_decimal(value as nat);
    }

    proof fn lemma_clone_is_same(source: &Self, copy: Self) {
    }
}

impl SecretTrait for usize {
    proof fn lemma_round_trip(value: usize) {
        lemma_parse_decimal_of_decimal(value as nat);
    }

    proof fn lemma_clone_is_same(source: &Self, copy: Self) {
    }
}

} // verus!
