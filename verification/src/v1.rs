//! A first sketch of typed encoding: the encoded text remembers, in its type,
//! which kind of secret it holds, so that decoding needs no hint.

use crate::decimal::{
    decimal, from_decimal, lemma_parse_decimal_of_decimal, parse_usize, to_decimal,
};
use std::marker::PhantomData;
use vstd::prelude::*;

verus! {

/// A secret that is a text.
pub struct Secret1(pub String);

/// A secret that is a number.
pub struct Secret2(pub usize);

impl View for Secret1 {
    type V = Seq<char>;

    open spec fn view(&self) -> Seq<char> {
        self.0@
    }
}

impl View for Secret2 {
    type V = usize;

    open spec fn view(&self) -> usize {
        self.0
    }
}

/// The encoded form of a secret of type `T`.
pub struct EncodedSecret<T> {
    pub content: String,
    pub _type: PhantomData<T>,
}

/// A secret that has an encoded form.
pub trait Secret: Sized + View {
    /// The text that encodes `value`.
    spec fn encoding(value: Self::V) -> Seq<char>;

    /// The value that `content` encodes, if it encodes one.
    spec fn decoding(content: Seq<char>) -> Option<Self::V>;

    /// What was encoded decodes to itself.
    proof fn lemma_round_trip(value: Self::V)
        ensures
            Self::decoding(Self::encoding(value)) == Some(value),
    ;

    /// The encoded form of the secret.
    fn encode(self) -> (encoded: EncodedSecret<Self>)
        ensures
            encoded.content@ == Self::encoding(self@),
    ;

    /// The secret that `secret` encodes. Its text has to encode one.
    fn decode(secret: EncodedSecret<Self>) -> (decoded: Self)
        requires
            Self::decoding(secret.content@) is Some,
        ensures
            Self::decoding(secret.content@) == Some(decoded@),
    ;
}

impl<T> EncodedSecret<T> {
    /// Takes `content` as the encoded form of a `T`, without looking at it.
    pub fn new(content: String) -> (encoded: EncodedSecret<T>)
        ensures
            encoded.content == content,
    {
        EncodedSecret { content, _type: PhantomData }
    }
}

impl<T: Secret> EncodedSecret<T> {
    /// The secret that this text encodes.
    pub fn decode(self) -> (decoded: T)
        requires
            T::decoding(self.content@) is Some,
        ensures
            T::decoding(self.content@) == Some(decoded@),
    {
        T::decode(self)
    }
}

impl Secret for Secret1 {
    open spec fn encoding(value: Seq<char>) -> Seq<char> {
        value
    }

    open spec fn decoding(content: Seq<char>) -> Option<Seq<char>> {
        Some(content)
    }

    proof fn lemma_round_trip(value: Seq<char>) {
    }

    fn encode(self) -> (encoded: EncodedSecret<Self>) {
        EncodedSecret::new(self.0)
    }

    fn decode(secret: EncodedSecret<Self>) -> (decoded: Self) {
        Secret1(secret.content)
    }
}

impl Secret for Secret2 {
    open spec fn encoding(value: usize) -> Seq<char> {
        decimal(value as nat)
    }

    open spec fn decoding(content: Seq<char>) -> Option<usize> {
        parse_usize(content)
    }

    proof fn lemma_round_trip(value: usize) {
        lemma_parse_decimal_of_decimal(value as nat);
    }

    fn encode(self) -> (encoded: EncodedSecret<Self>) {
        let content = to_decimal(self.0);
        EncodedSecret::new(content)
    }

    fn decode(secret: EncodedSecret<Self>) -> (decoded: Self) {
        Secret2(from_decimal(secret.content.as_str()).unwrap())
    }
}

} // verus!
