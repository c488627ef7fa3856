//! Which requests the hook listener lets in.
use crate::text::lemma_bytes_tell;
use vstd::prelude::*;
use vstd::string::*;

verus! {

/// What a request is answered.
#[derive(Clone, Copy, Debug, PartialEq, Eq, Structural)]
pub enum Admission {
    Accepted,
    /// It does not carry the secret.
    Unauthorized,
    /// It does not come from this machine.
    Forbidden,
}

/// What a request is answered: it comes from this machine and carries the secret.
/// Without a secret nothing is let in.
pub open spec fn admission(
    loopback: bool,
    presented: Option<Seq<char>>,
    token: Seq<char>,
) -> Admission {
    if !loopback {
        Admission::Forbidden
    } else if token.len() > 0 && presented == Some(token) {
        Admission::Accepted
    } else {
        Admission::Unauthorized
    }
}

/// Whether two secrets are the same. Of two that are equally long every byte is
/// looked at, whatever the others are.
fn same_secret(a: &str, b: &str) -> (r: bool)
    ensures
        r == (a@ == b@),
{
    let x = a.as_bytes();
    let y = b.as_bytes();
    proof {
        lemma_bytes_tell(a, b);
    }
    if x.len() != y.len() {
        return false;
    }
    let mut difference: u8 = 0;
    let mut i: usize = 0;
    while i < x.len()
        invariant
            x.len() == y.len(),
            i <= x.len(),
            difference == 0 <==> forall|j: int| 0 <= j < i ==> #[trigger] x@[j] == y@[j],
        decreases x.len() - i,
    {
        let c: u8 = x[i];
        let d: u8 = y[i];
        assert((difference | (c ^ d)) == 0 <==> difference == 0 && c == d) by (bit_vector);
        difference = difference | (c ^ d);
        i += 1;
    }
    assert(difference == 0 <==> x@ =~= y@);
    difference == 0
}

/// What a request is answered that comes from this machine or not, and presents
/// this as the secret.
pub fn answer(loopback: bool, presented: &Option<String>, token: &str) -> (r: Admission)
    ensures
        r == admission(loopback, presented.deep_view(), token@),
{
    if !loopback {
        return Admission::Forbidden;
    }
    let carried = match presented {
        Some(p) => same_secret(p.as_str(), token),
        None => false,
    };
    if !token.is_empty() && carried {
        Admission::Accepted
    } else {
        Admission::Unauthorized
    }
}

/// The status code of an answer.
pub fn status_code(admission: Admission) -> (r: u16)
    ensures
        r == (match admission {
            Admission::Accepted => 200u16,
            Admission::Unauthorized => 401u16,
            Admission::Forbidden => 403u16,
        }),
{
    match admission {
        Admission::Accepted => 200,
        Admission::Unauthorized => 401,
        Admission::Forbidden => 403,
    }
}

} // verus!
