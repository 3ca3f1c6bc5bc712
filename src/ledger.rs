use vstd::prelude::*;

use crate::state::{le_bytes, u64_le_bytes};

verus! {

/// The replay guard: the set of `(origin chain id, sequence index)` keys
/// whose transfer receipt has been honored. A key, once in, stays in.
#[derive(Debug)]
pub struct ClaimedDictionary {
    claimed: Vec<(u64, u64)>,
}

impl View for ClaimedDictionary {
    type V = Set<(u64, u64)>;

    closed spec fn view(&self) -> Set<(u64, u64)> {
        self.claimed@.to_set()
    }
}

impl ClaimedDictionary {
    pub fn new() -> (r: ClaimedDictionary)
        ensures
            r@ == Set::<(u64, u64)>::empty(),
    {
        let r = ClaimedDictionary { claimed: Vec::new() };
        assert(r@ =~= Set::<(u64, u64)>::empty());
        r
    }

    /// Whether a receipt for `(chain_id, index)` has been honored.
    pub fn is_claimed(&self, chain_id: u64, index: u64) -> (r: bool)
        ensures
            r == self@.contains((chain_id, index)),
    {
        let mut i: usize = 0;
        while i < self.claimed.len()
            invariant
                0 <= i <= self.claimed@.len(),
                forall|j: int| 0 <= j < i ==> self.claimed@[j] != (chain_id, index),
            decreases self.claimed@.len() - i,
        {
            let (c, n) = self.claimed[i];
            if c == chain_id && n == index {
                assert(self.claimed@.contains((chain_id, index)));
                return true;
            }
            i = i + 1;
        }
        assert(!self.claimed@.contains((chain_id, index)));
        false
    }

    /// Records that the receipt for `(chain_id, index)` has been honored.
    pub fn claim(&mut self, chain_id: u64, index: u64)
        ensures
            final(self)@ == old(self)@.insert((chain_id, index)),
    {
        self.claimed.push((chain_id, index));
        assert(self.claimed@.to_set() =~= old(self).claimed@.to_set().insert((chain_id, index))) by {
            assert(self.claimed@ == old(self).claimed@.push((chain_id, index)));
            assert forall|k: (u64, u64)| #[trigger] self.claimed@.contains(k) <==> (old(self).claimed@.contains(k) || k == (chain_id, index)) by {
                if self.claimed@.contains(k) {
                    let j = choose|j: int| 0 <= j < self.claimed@.len() && self.claimed@[j] == k;
                    if j < old(self).claimed@.len() {
                        assert(old(self).claimed@[j] == k);
                    }
                }
                if old(self).claimed@.contains(k) {
                    let j = choose|j: int| 0 <= j < old(self).claimed@.len() && old(self).claimed@[j] == k;
                    assert(self.claimed@[j] == k);
                }
                if k == (chain_id, index) {
                    assert(self.claimed@[self.claimed@.len() - 1] == k);
                }
            }
        }
    }

    /// The textual key of `(x, y)`: both numbers in decimal, joined by `-`.
    pub fn generate_key(x: u64, y: u64) -> (r: String)
        ensures
            r@ == decimal(x as nat) + seq!['-'] + decimal(y as nat),
    {
        let mut r = decimal_string(x);
        let dash = "-";
        proof {
            reveal_strlit("-");
        }
        r.append(dash);
        let tail = decimal_string(y);
        r.append(tail.as_str());
        r
    }

    /// Seeds that locate the replay entry of `(chain_id, index)`: both numbers
    /// in little-endian bytes.
    pub fn generate_pda_seeds_vec(chain_id: u64, index: u64) -> (r: Vec<Vec<u8>>)
        ensures
            r@.len() == 2,
            r@[0]@ == le_bytes(chain_id),
            r@[1]@ == le_bytes(index),
    {
        let mut r: Vec<Vec<u8>> = Vec::new();
        r.push(u64_le_bytes(chain_id));
        r.push(u64_le_bytes(index));
        r
    }
}

/// The character of a decimal digit.
pub open spec fn digit_char(d: nat) -> char {
    if d == 0 {
        '0'
    } else if d == 1 {
        '1'
    } else if d == 2 {
        '2'
    } else if d == 3 {
        '3'
    } else if d == 4 {
        '4'
    } else if d == 5 {
        '5'
    } else if d == 6 {
        '6'
    } else if d == 7 {
        '7'
    } else if d == 8 {
        '8'
    } else {
        '9'
    }
}

/// The decimal representation of `n`, without leading zeros.
pub open spec fn decimal(n: nat) -> Seq<char>
    decreases n,
{
    if n < 10 {
        seq![digit_char(n)]
    } else {
        decimal(n / 10).push(digit_char(n % 10))
    }
}

fn digit_str(d: u64) -> (r: &'static str)
    requires
        d < 10,
    ensures
        r@ == seq![digit_char(d as nat)],
{
    if d == 0 {
        proof { reveal_strlit("0"); }
        "0"
    } else if d == 1 {
        proof { reveal_strlit("1"); }
        "1"
    } else if d == 2 {
        proof { reveal_strlit("2"); }
        "2"
    } else if d == 3 {
        proof { reveal_strlit("3"); }
        "3"
    } else if d == 4 {
        proof { reveal_strlit("4"); }
        "4"
    } else if d == 5 {
        proof { reveal_strlit("5"); }
        "5"
    } else if d == 6 {
        proof { reveal_strlit("6"); }
        "6"
    } else if d == 7 {
        proof { reveal_strlit("7"); }
        "7"
    } else if d == 8 {
        proof { reveal_strlit("8"); }
        "8"
    } else {
        proof { reveal_strlit("9"); }
        "9"
    }
}

/// `n` written in decimal.
pub fn decimal_string(n: u64) -> (r: String)
    ensures
        r@ == decimal(n as nat),
    decreases n,
{
    if n < 10 {
        String::from_str(digit_str(n))
    } else {
        let mut r = decimal_string(n / 10);
        r.append(digit_str(n % 10));
        assert(r@ =~= decimal(n as nat));
        r
    }
}

} // verus!
