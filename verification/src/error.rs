//! The single error kind of the facade: an input that does not parse.

use vstd::prelude::*;

verus! {

/// The primitive library's error for a failed construction of a typed value.
///
/// Trusted: declared with its definition visible, so contracts can speak of
/// its one variant, `BadLength`, and of that variant's fields `name`, `actual`
/// and `expected`.
#[verifier::external_type_specification]
pub struct ExPrimitiveError(pqcrypto_traits::Error);

/// `cause` says that the bytes offered for a typed value called `name` were
/// `actual` many where `expected` were called for.
pub open spec fn is_bad_length(
    cause: pqcrypto_traits::Error,
    name: Seq<char>,
    expected: nat,
    actual: nat,
) -> bool {
    &&& cause matches pqcrypto_traits::Error::BadLength { name: n, actual: a, expected: e }
    &&& n@ == name
    &&& a == actual
    &&& e == expected
}

/// The decimal digit of value `d`.
pub open spec fn digit(d: nat) -> char
    recommends
        d < 10,
{
    seq!['0', '1', '2', '3', '4', '5', '6', '7', '8', '9'][d as int]
}

/// `n` in decimal digits, most significant first, without leading zeros.
pub open spec fn decimal(n: nat) -> Seq<char>
    decreases n,
{
    if n < 10 {
        seq![digit(n)]
    } else {
        decimal(n / 10).push(digit(n % 10))
    }
}

/// The primitive library's wording of a bad length.
pub open spec fn bad_length_text(name: Seq<char>, expected: nat, actual: nat) -> Seq<char> {
    "error: "@ + name + " expected "@ + decimal(expected) + " bytes, got "@ + decimal(actual)
}

/// `to_string` of the primitive library's error, which goes by its `Display`:
/// for a bad length the words `error: `, the name of the typed value,
/// ` expected `, the length called for, ` bytes, got ` and the length given,
/// both lengths in decimal.
#[verifier::external_body]
fn diagnostic(cause: &pqcrypto_traits::Error) -> (text: String)
    ensures
        *cause matches pqcrypto_traits::Error::BadLength { name, actual, expected } ==> text@
            == bad_length_text(name@, expected as nat, actual as nat),
{
    cause.to_string()
}

/// The argument of an operation that failed to parse.
#[derive(Clone, Copy, Debug, PartialEq, Eq, Structural)]
pub enum Argument {
    PublicKey,
    SecretKey,
    Ciphertext,
    Signature,
}

/// A byte-array input could not be parsed into the typed value that the
/// primitive library expects. It is the only error of the facade; a signature
/// that parses but does not verify is no error.
#[derive(Clone, Copy, Debug)]
pub struct InvalidEncoding {
    /// Which argument of the operation was rejected.
    pub argument: Argument,
    /// The primitive library's own diagnostic, kept as it was given.
    pub cause: pqcrypto_traits::Error,
}

impl InvalidEncoding {
    /// This error rejects `argument` because the bytes offered for it, to be
    /// read as the typed value called `name`, were `actual` many where the
    /// scheme calls for `expected`: the exact length of a key or a
    /// ciphertext, the greatest length of a signature.
    pub open spec fn reports(
        self,
        argument: Argument,
        name: Seq<char>,
        expected: nat,
        actual: nat,
    ) -> bool {
        self.argument == argument && is_bad_length(self.cause, name, expected, actual)
    }

    /// Two errors that reject the same argument for the same reason.
    pub open spec fn agrees_with(self, other: InvalidEncoding) -> bool {
        &&& self.argument == other.argument
        &&& self.cause matches pqcrypto_traits::Error::BadLength { name, actual, expected }
        &&& is_bad_length(other.cause, name@, expected as nat, actual as nat)
    }

    /// The primitive library's diagnostic for this error, word for word.
    pub fn message(&self) -> (text: String)
        ensures
            self.cause matches pqcrypto_traits::Error::BadLength { name, actual, expected }
                ==> text@ == bad_length_text(name@, expected as nat, actual as nat),
    {
        diagnostic(&self.cause)
    }
}

} // verus!
