//! Building sequences from instants, appending to them, and restarting them.
//!
//! The engine builds a sequence from the addresses of its instants, and copies
//! them: the instants stay owned by their holders. An append may grow the
//! sequence in place or move it to a new address; the handle then holds the new
//! address and the old one is released, once.
use vstd::prelude::*;

use crate::error::Error;
use crate::handle::{admission, Rejection, TInst, TSeq};
use crate::kind::{tag_of_interpolation, Interpolation, Type};

verus! {

/// The largest element count that the engine takes (it counts in `i32`).
pub const MAX_COUNT: usize = 2147483647;

/// What the engine's sequence constructor is called with.
pub struct MakeRequest {
    /// Addresses of the instants, in order.
    pub instants: Vec<usize>,
    /// Number of instants.
    pub count: i32,
    /// Room reserved for later appends, at least `count`.
    pub max_count: i32,
    pub lower_inc: bool,
    pub upper_inc: bool,
    /// Tag of the interpolation.
    pub interp: u8,
    /// Whether to merge instants that a continuous interpolation makes
    /// redundant.
    pub normalize: bool,
}

/// The addresses of a list of instants.
pub open spec fn addrs_of(instants: Seq<&TInst>) -> Seq<usize> {
    instants.map_values(|t: &TInst| t@)
}

/// Whether a make request on `n` instants with room for `max_count` is refused
/// before the engine is called.
pub open spec fn make_refused(n: int, max_count: int) -> bool {
    n == 0 || max_count < n || max_count > MAX_COUNT
}

/// What becomes of the address `addr` with tag `tag` that the constructor
/// returned: zero means it refused; a value that is not a sequence is refused
/// and released.
pub open spec fn made_outcome(addr: usize, tag: u8) -> Result<usize, Rejection> {
    if addr == 0 {
        Err(Rejection { error: Error::ConstructionError, release: None })
    } else {
        match admission(addr, tag, Some(Type::Sequence)) {
            Ok(_) => Ok(addr),
            Err(e) => Err(e),
        }
    }
}

/// The address held and the address released after the engine answered an
/// append on `held` with `returned`.
pub open spec fn append_step(held: usize, returned: usize) -> (usize, Option<usize>) {
    if returned == 0 || returned == held {
        (held, None)
    } else {
        (returned, Some(held))
    }
}

/// The address held after appends that the engine answered with `answers`, in
/// order, and the addresses released on the way.
pub open spec fn append_trace(held: usize, answers: Seq<usize>) -> (usize, Seq<usize>)
    decreases answers.len(),
{
    if answers.len() == 0 {
        (held, Seq::empty())
    } else {
        let step = append_step(held, answers[0]);
        let rest = append_trace(step.0, answers.drop_first());
        match step.1 {
            Some(a) => (rest.0, seq![a] + rest.1),
            None => rest,
        }
    }
}

impl TSeq {
    /// Checks the arguments of a sequence construction and lays them out for
    /// the engine. The instants are borrowed: their holders keep them. They
    /// must be in increasing order of time, which the engine checks.
    pub fn make_request(
        instants: &Vec<&TInst>,
        max_count: usize,
        lower_inc: bool,
        upper_inc: bool,
        interp: Interpolation,
        normalize: bool,
    ) -> (r: Result<MakeRequest, Error>)
        ensures
            r is Err <==> make_refused(instants@.len() as int, max_count as int),
            r matches Err(e) ==> e == Error::ConstructionError,
            r matches Ok(q) ==> {
                &&& q.instants@ == addrs_of(instants@)
                &&& q.count as int == instants@.len()
                &&& q.max_count as int == max_count
                &&& q.lower_inc == lower_inc
                &&& q.upper_inc == upper_inc
                &&& q.interp == tag_of_interpolation(interp)
                &&& q.normalize == normalize
            },
    {
        let n = instants.len();
        if n == 0 || max_count < n || max_count > MAX_COUNT {
            return Err(Error::ConstructionError);
        }
        let mut addrs: Vec<usize> = Vec::new();
        let mut i: usize = 0;
        while i < n
            invariant
                n == instants@.len(),
                0 <= i <= n,
                addrs@ == addrs_of(instants@).subrange(0, i as int),
            decreases n - i,
        {
            let a = instants[i].addr();
            addrs.push(a);
            i = i + 1;
            assert(addrs@ =~= addrs_of(instants@).subrange(0, i as int));
        }
        assert(addrs@ =~= addrs_of(instants@));
        Ok(
            MakeRequest {
                instants: addrs,
                count: n as i32,
                max_count: max_count as i32,
                lower_inc,
                upper_inc,
                interp: interp.tag(),
                normalize,
            },
        )
    }

    /// Takes the constructor's answer to a make request: its address, and the
    /// subtype tag stored there.
    pub fn made(addr: usize, tag: u8) -> (r: Result<TSeq, Rejection>)
        ensures
            made_outcome(addr, tag) matches Ok(a) ==> (r matches Ok(s) && s@ == a),
            made_outcome(addr, tag) matches Err(e) ==> r == Err::<TSeq, _>(e),
    {
        if addr == 0 {
            return Err(Rejection { error: Error::ConstructionError, release: None });
        }
        TSeq::from_parsed(addr, tag)
    }

    /// Takes the engine's answer to an append: the address it returned, zero
    /// where it refused the instant. The handle then holds the sequence's
    /// current address; the result names the address to release, if the
    /// sequence moved.
    pub fn record_append(&mut self, returned: usize) -> (r: Result<Option<usize>, Error>)
        ensures
            returned == 0 ==> r == Err::<Option<usize>, Error>(Error::ConstructionError),
            returned != 0 ==> r == Ok::<Option<usize>, Error>(append_step(old(self)@, returned).1),
            final(self)@ == append_step(old(self)@, returned).0,
    {
        if returned == 0 {
            return Err(Error::ConstructionError);
        }
        let held = self.addr();
        if returned == held {
            Ok(None)
        } else {
            self.move_to(returned);
            Ok(Some(held))
        }
    }
}

/// A sequence made from a non-empty list of instants is a sequence: the
/// constructor's answer is accepted only where its tag names a sequence.
pub proof fn lemma_made_is_sequence(addr: usize, tag: u8)
    ensures
        made_outcome(addr, tag) is Ok ==> crate::kind::type_of_tag(tag) == Some(Type::Sequence),
{
}

/// Over any run of appends, the addresses that a sequence handle holds one
/// after another, ending with the one it holds at the end, are never zero,
/// start with the address it was made with, change at each step, and (after the
/// first) are addresses that the engine returned. The addresses released are
/// all of them but the last, in order: each holding is released once, and the
/// address held is never released while it is held.
pub proof fn lemma_append_releases_each_once(start: usize, answers: Seq<usize>)
    requires
        start != 0,
    ensures
        ({
            let (fin, released) = append_trace(start, answers);
            let life = released.push(fin);
            &&& life[0] == start
            &&& forall|i: int| 0 <= i < life.len() ==> life[i] != 0
            &&& forall|i: int| 0 <= i < life.len() - 1 ==> #[trigger] life[i] != life[i + 1]
            &&& forall|i: int| 0 < i < life.len() ==> answers.contains(life[i])
        }),
    decreases answers.len(),
{
    if answers.len() > 0 {
        let step = append_step(start, answers[0]);
        let tail = answers.drop_first();
        lemma_append_releases_each_once(step.0, tail);
        let rest = append_trace(step.0, tail);
        let rest_life = rest.1.push(rest.0);
        assert forall|x: usize| tail.contains(x) implies answers.contains(x) by {
            let j = choose|j: int| 0 <= j < tail.len() && tail[j] == x;
            assert(answers[j + 1] == x);
        }
        match step.1 {
            Some(a) => {
                let (fin, released) = append_trace(start, answers);
                let life = released.push(fin);
                assert(released == seq![a] + rest.1);
                assert(life =~= seq![start] + rest_life);
                assert(rest_life[0] == answers[0]);
                assert forall|i: int| 0 < i < life.len() implies answers.contains(life[i]) by {
                    assert(life[i] == rest_life[i - 1]);
                    if i == 1 {
                        assert(answers[0] == life[i]);
                    }
                }
                assert forall|i: int| 0 <= i < life.len() - 1 implies #[trigger] life[i] != life[i + 1] by {
                    if i > 0 {
                        assert(life[i] == rest_life[i - 1]);
                        assert(life[i + 1] == rest_life[i]);
                    }
                }
            },
            None => {
                assert(append_trace(start, answers) == rest);
            },
        }
    }
}

/// When to restart a sequence that keeps growing: once it holds `batch`
/// instants, keep its last `keep` and drop the rest.
pub struct RestartPolicy {
    batch: usize,
    keep: usize,
}

impl RestartPolicy {
    #[verifier::type_invariant]
    spec fn wf(&self) -> bool {
        0 < self.keep < self.batch <= MAX_COUNT
    }

    /// The batch size.
    pub closed spec fn batch_spec(&self) -> usize {
        self.batch
    }

    /// The number of instants kept.
    pub closed spec fn keep_spec(&self) -> usize {
        self.keep
    }

    /// A policy that keeps `keep` of every `batch` instants; refused unless
    /// `0 < keep < batch` and `batch` fits the engine's counts.
    pub fn new(batch: usize, keep: usize) -> (r: Result<RestartPolicy, Error>)
        ensures
            r is Ok <==> 0 < keep < batch <= MAX_COUNT,
            r matches Ok(p) ==> p.batch_spec() == batch && p.keep_spec() == keep,
            r matches Err(e) ==> e == Error::ConstructionError,
    {
        if 0 < keep && keep < batch && batch <= MAX_COUNT {
            Ok(RestartPolicy { batch, keep })
        } else {
            Err(Error::ConstructionError)
        }
    }

    /// Given the number of instants a sequence holds, the count to restart it
    /// to before the next append, or `None` where it has room left.
    pub fn due(&self, count: usize) -> (r: Option<i32>)
        ensures
            count >= self.batch_spec() ==> r == Some(self.keep_spec() as i32),
            count < self.batch_spec() ==> r is None,
            r matches Some(k) ==> 0 < k < count,
    {
        proof {
            use_type_invariant(self);
        }
        if count >= self.batch {
            Some(self.keep as i32)
        } else {
            None
        }
    }
}

} // verus!
