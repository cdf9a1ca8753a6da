//! Copies that keep the mathematical value, and facts about the values of
//! vectors.

use vstd::prelude::*;

verus! {

/// A type whose values can be copied without changing what they stand for.
pub trait DeepClone: DeepView + Sized {
    /// A copy with the same deep view.
    fn deep_clone(&self) -> (r: Self)
        ensures
            r.deep_view() == self.deep_view(),
    ;
}

impl DeepClone for String {
    fn deep_clone(&self) -> (r: String) {
        self.clone()
    }
}

impl<T: DeepClone> DeepClone for Option<T> {
    fn deep_clone(&self) -> (r: Option<T>) {
        match self {
            Some(t) => Some(t.deep_clone()),
            None => None,
        }
    }
}

impl<T: DeepClone> DeepClone for Vec<T> {
    fn deep_clone(&self) -> (r: Vec<T>) {
        let mut out: Vec<T> = Vec::new();
        let mut i: usize = 0;
        while i < self.len()
            invariant
                i <= self.len(),
                out.len() == i,
                forall|j: int| 0 <= j < i ==> out[j].deep_view() == self[j].deep_view(),
            decreases self.len() - i,
        {
            out.push(self[i].deep_clone());
            i += 1;
        }
        assert(out.deep_view() =~= self.deep_view());
        out
    }
}

/// The value of a result: the value of what it holds.
pub open spec fn result_view<T: DeepView, E: DeepView>(r: Result<T, E>) -> Result<T::V, E::V> {
    match r {
        Ok(v) => Ok(v.deep_view()),
        Err(e) => Err(e.deep_view()),
    }
}

/// The outcome of steps taken in order until one fails: the error of the
/// first step that fails, else the results of all of them.
pub open spec fn collect<T, E>(steps: Seq<Result<T, E>>) -> Result<Seq<T>, E>
    decreases steps.len(),
{
    if steps.len() == 0 {
        Ok(Seq::empty())
    } else {
        match collect(steps.drop_last()) {
            Err(e) => Err(e),
            Ok(done) => match steps.last() {
                Ok(x) => Ok(done.push(x)),
                Err(e) => Err(e),
            },
        }
    }
}

/// `collect` of a sequence of steps in terms of its elements: it succeeds
/// exactly where every step does, and then holds each step's result in place;
/// where it fails, its error is that of the first step that fails.
pub proof fn lemma_collect<T, E>(steps: Seq<Result<T, E>>)
    ensures
        collect(steps) is Ok <==> forall|i: int| 0 <= i < steps.len() ==> steps[i] is Ok,
        collect(steps) matches Ok(v) ==> v.len() == steps.len() && forall|i: int|
            0 <= i < steps.len() ==> steps[i] == Ok::<T, E>(#[trigger] v[i]),
        collect(steps) matches Err(e) ==> exists|i: int|
            0 <= i < steps.len() && steps[i] == Err::<T, E>(e) && forall|j: int|
                0 <= j < i ==> #[trigger] steps[j] is Ok,
    decreases steps.len(),
{
    if steps.len() > 0 {
        let front = steps.drop_last();
        lemma_collect(front);
        match collect(front) {
            Err(e) => {
                let i = choose|i: int|
                    0 <= i < front.len() && front[i] == Err::<T, E>(e) && forall|j: int|
                        0 <= j < i ==> #[trigger] front[j] is Ok;
                assert(steps[i] == front[i]);
                assert forall|j: int| 0 <= j < i implies #[trigger] steps[j] is Ok by {
                    assert(front[j] is Ok);
                }
            },
            Ok(done) => {
                assert forall|i: int| 0 <= i < front.len() implies steps[i] is Ok by {
                    assert(front[i] is Ok);
                }
                match steps.last() {
                    Ok(x) => {
                        let v = done.push(x);
                        assert forall|i: int| 0 <= i < steps.len() implies steps[i] == Ok::<T, E>(
                            #[trigger] v[i],
                        ) by {
                            if i < front.len() {
                                assert(front[i] == Ok::<T, E>(done[i]));
                            }
                        }
                    },
                    Err(e) => {
                        let i = steps.len() - 1;
                        assert(steps[i] == Err::<T, E>(e));
                        assert forall|j: int| 0 <= j < i implies #[trigger] steps[j] is Ok by {
                            assert(front[j] is Ok);
                        }
                    },
                }
            },
        }
    }
}

/// One more step after a prefix of steps that succeeded.
pub proof fn lemma_collect_step<T, E>(steps: Seq<Result<T, E>>, i: int, done: Seq<T>)
    requires
        0 <= i < steps.len(),
        collect(steps.take(i)) == Ok::<Seq<T>, E>(done),
    ensures
        collect(steps.take(i + 1)) == match steps[i] {
            Ok(x) => Ok::<Seq<T>, E>(done.push(x)),
            Err(e) => Err(e),
        },
{
    assert(steps.take(i + 1).drop_last() =~= steps.take(i));
}

/// A failure among the first steps is the failure of all of them.
pub proof fn lemma_collect_failed<T, E>(steps: Seq<Result<T, E>>, i: int, e: E)
    requires
        0 <= i <= steps.len(),
        collect(steps.take(i)) == Err::<Seq<T>, E>(e),
    ensures
        collect(steps) == Err::<Seq<T>, E>(e),
    decreases steps.len() - i,
{
    if i < steps.len() {
        assert(steps.take(i + 1).drop_last() =~= steps.take(i));
        lemma_collect_failed(steps, i + 1, e);
    } else {
        assert(steps.take(i) =~= steps);
    }
}

/// `filter_map` of a sequence with one more element at its end.
pub proof fn lemma_filter_map_push<A, B>(s: Seq<A>, x: A, f: spec_fn(A) -> Option<B>)
    ensures
        s.push(x).filter_map(f) == match f(x) {
            Some(y) => s.filter_map(f).push(y),
            None => s.filter_map(f),
        },
{
    assert(s.push(x).drop_last() =~= s);
    match f(x) {
        Some(y) => {
            assert(s.filter_map(f) + seq![y] =~= s.filter_map(f).push(y));
        },
        None => {},
    }
}

/// `map_values` of a sequence with one more element at its end.
pub proof fn lemma_map_values_push<A, B>(s: Seq<A>, x: A, f: spec_fn(A) -> B)
    ensures
        s.push(x).map_values(f) == s.map_values(f).push(f(x)),
{
    assert(s.push(x).map_values(f) =~= s.map_values(f).push(f(x)));
}

} // verus!
