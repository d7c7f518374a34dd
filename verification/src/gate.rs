//! The access gate's decision: does a presented credential equal the
//! configured secret.

use vstd::prelude::*;
use vstd::utf8::{decode_utf8, encode_utf8, encode_utf8_decode_utf8};
use crate::service::ServiceError;

verus! {

/// Whether a request is let in: it presents a credential, and the credential
/// is the secret.
pub open spec fn admits(presented: Option<Seq<char>>, secret: Seq<char>) -> bool {
    presented == Some(secret)
}

/// Two texts with the same UTF-8 bytes are the same text.
pub proof fn lemma_same_bytes_same_text(a: Seq<char>, b: Seq<char>)
    requires
        encode_utf8(a) == encode_utf8(b),
    ensures
        a == b,
{
    encode_utf8_decode_utf8(a);
    encode_utf8_decode_utf8(b);
    assert(decode_utf8(encode_utf8(a)) == decode_utf8(encode_utf8(b)));
}

/// Whether two byte strings are equal. Where they are of one length, every
/// pair of bytes is compared, whether or not an earlier pair differed.
pub fn bytes_equal(a: &[u8], b: &[u8]) -> (r: bool)
    ensures
        r == (a@ == b@),
{
    if a.len() != b.len() {
        return false;
    }
    let mut difference: u8 = 0;
    let mut i: usize = 0;
    assert(a@.take(0) =~= b@.take(0));
    while i < a.len()
        invariant
            i <= a.len(),
            a.len() == b.len(),
            difference == 0 <==> a@.take(i as int) == b@.take(i as int),
        decreases a.len() - i,
    {
        let x: u8 = a[i];
        let y: u8 = b[i];
        let ghost before = difference;
        difference = difference | (x ^ y);
        proof {
            assert((before | (x ^ y)) == 0 <==> (before == 0 && x == y)) by (bit_vector);
            assert(a@.take(i + 1) =~= a@.take(i as int).push(x));
            assert(b@.take(i + 1) =~= b@.take(i as int).push(y));
            if a@.take(i + 1) == b@.take(i + 1) {
                assert(a@.take(i + 1)[i as int] == b@.take(i + 1)[i as int]);
                assert(a@.take(i + 1).drop_last() =~= a@.take(i as int));
                assert(b@.take(i + 1).drop_last() =~= b@.take(i as int));
            }
        }
        i += 1;
    }
    assert(a@.take(a.len() as int) =~= a@);
    assert(b@.take(b.len() as int) =~= b@);
    difference == 0
}

/// Decides whether a request is let in.
///
/// `presented` is the credential that the request carries, `None` where it
/// carries none or one that is no text.
pub fn credential_matches(presented: Option<&str>, secret: &str) -> (r: bool)
    ensures
        r == admits(
            match presented {
                Some(credential) => Some(credential@),
                None => None,
            },
            secret@,
        ),
{
    match presented {
        None => false,
        Some(credential) => {
            let equal = bytes_equal(credential.as_bytes(), secret.as_bytes());
            proof {
                if equal {
                    lemma_same_bytes_same_text(credential@, secret@);
                }
            }
            equal
        },
    }
}

/// The answer to a request: nothing where it is let in, and
/// `Unauthorized` where it is not. The answer does not depend on anything
/// but the credential, so it tells nothing of the items.
pub fn authorize(presented: Option<&str>, secret: &str) -> (r: Result<(), ServiceError>)
    ensures
        r == (if admits(
            match presented {
                Some(credential) => Some(credential@),
                None => None,
            },
            secret@,
        ) {
            Ok::<(), ServiceError>(())
        } else {
            Err(ServiceError::Unauthorized)
        }),
{
    if credential_matches(presented, secret) {
        Ok(())
    } else {
        Err(ServiceError::Unauthorized)
    }
}

} // verus!
