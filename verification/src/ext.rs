//! Extension traits: shorthands on content and styles, and fail-fast
//! iteration over results.

use crate::content::Content;
use crate::content::Destination;
use crate::content::GenAlign;
use crate::font::FontFamily;
use crate::geom::Axes;
use crate::geom::Linear;
use crate::geom::Sides;
use crate::style::families_in;
use crate::style::lemma_chain_lookup_key;
use crate::style::Style;
use crate::style::StyleChain;
use crate::style::StyleKey;
use crate::style::Styles;
use crate::style::StyleView;
use crate::views::views_of;
use std::marker::PhantomData;
use vstd::prelude::*;
use vstd::std_specs::iter::IteratorSpec;
use vstd::std_specs::iter::IteratorSpecImpl;

verus! {

/// Additional methods on content.
pub trait ContentExt {
    /// Make this content strong.
    fn strong(self) -> Self;

    /// Make this content emphasized.
    fn emph(self) -> Self;

    /// Underline this content.
    fn underlined(self) -> Self;

    /// Link the content somewhere.
    fn linked(self, dest: Destination) -> Self;

    /// Set alignments for this content.
    fn aligned(self, aligns: Axes<Option<GenAlign>>) -> Self;

    /// Pad this content at the sides.
    fn padded(self, padding: Sides<Linear>) -> Self;

    /// Transform this content's contents without affecting layout.
    fn moved(self, delta: Axes<Linear>) -> Self;
}

impl ContentExt for Content {
    fn strong(self) -> (r: Content)
        ensures
            r == Content::Strong(Box::new(self)),
    {
        Content::Strong(Box::new(self))
    }

    fn emph(self) -> (r: Content)
        ensures
            r == Content::Emph(Box::new(self)),
    {
        Content::Emph(Box::new(self))
    }

    fn underlined(self) -> (r: Content)
        ensures
            r == Content::Underline(Box::new(self)),
    {
        Content::Underline(Box::new(self))
    }

    fn linked(self, dest: Destination) -> (r: Content)
        ensures
            r == Content::Link(Box::new(self), dest),
    {
        Content::Link(Box::new(self), dest)
    }

    fn aligned(self, aligns: Axes<Option<GenAlign>>) -> (r: Content)
        ensures
            r == Content::Align(Box::new(self), aligns),
    {
        Content::Align(Box::new(self), aligns)
    }

    fn padded(self, padding: Sides<Linear>) -> (r: Content)
        ensures
            r == Content::Pad(Box::new(self), padding),
    {
        Content::Pad(Box::new(self), padding)
    }

    fn moved(self, delta: Axes<Linear>) -> (r: Content)
        ensures
            r == Content::Move(Box::new(self), delta),
    {
        Content::Move(Box::new(self), delta)
    }
}

/// Additional methods for style lists.
pub trait StylesExt {
    /// Set a font family composed of a preferred family and existing families
    /// from a style chain.
    fn set_family(&mut self, preferred: FontFamily, existing: StyleChain);
}

impl StylesExt for Styles {
    fn set_family(&mut self, preferred: FontFamily, existing: StyleChain)
        ensures
            final(self)@ == old(self)@.push(
                StyleView::Families(seq![preferred@] + families_in(existing.layers())),
            ),
    {
        let mut list: Vec<FontFamily> = Vec::new();
        list.push(preferred);
        proof {
            lemma_chain_lookup_key(existing.layers(), StyleKey::Families);
        }
        match existing.get(StyleKey::Families) {
            Style::Families(mut families) => {
                list.append(&mut families);
            },
            _ => {},
        }
        assert(views_of(list@) =~= seq![preferred@] + families_in(existing.layers()));
        self.set(Style::Families(list));
    }
}

/// Position of the first `Err` in `items`, or `items.len()` where every item
/// is `Ok`.
pub open spec fn first_err<T, E>(items: Seq<Result<T, E>>) -> int
    decreases items.len(),
{
    if items.len() == 0 || items[0] is Err {
        0
    } else {
        1 + first_err(items.drop_first())
    }
}

/// `first_err` names an `Err` unless it names the end, and every item before
/// it is `Ok`.
pub proof fn lemma_first_err<T, E>(items: Seq<Result<T, E>>)
    ensures
        0 <= first_err(items) <= items.len(),
        first_err(items) < items.len() ==> items[first_err(items)] is Err,
        forall|i: int| 0 <= i < first_err(items) ==> #[trigger] items[i] is Ok,
    decreases items.len(),
{
    if items.len() == 0 || items[0] is Err {
    } else {
        let rest = items.drop_first();
        lemma_first_err(rest);
        assert forall|i: int| 0 <= i < first_err(items) implies #[trigger] items[i] is Ok by {
            if i > 0 {
                assert(items[i] == rest[i - 1]);
            }
        }
    }
}

/// The payloads of `items`, which are meant to be `Ok` all of them.
pub open spec fn payloads<T, E>(items: Seq<Result<T, E>>) -> Seq<T> {
    Seq::new(items.len(), |i: int| items[i]->Ok_0)
}

/// Whether folding `items` into `initial` with `f`, from the first to the
/// last, can give `out`.
pub open spec fn folds_to<T, B, F: FnMut(B, T) -> B>(f: F, initial: B, items: Seq<T>, out: B) -> bool
    decreases items.len(),
{
    if items.len() == 0 {
        out == initial
    } else {
        exists|mid: B|
            #![trigger call_ensures(f, (mid, items.last()), out)]
            folds_to(f, initial, items.drop_last(), mid) && call_ensures(f, (mid, items.last()), out)
    }
}

/// `f` accepts every argument.
pub open spec fn total<T, U, F: Fn(T) -> U>(f: F) -> bool {
    forall|t: T| call_requires(f, (t,))
}

/// A function together with the knowledge that it accepts every argument.
#[verifier::reject_recursive_types(T)]
#[verifier::reject_recursive_types(F)]
#[verifier::reject_recursive_types(U)]
struct TotalFn<T, F, U> where F: Fn(T) -> U {
    f: F,
    _phantom: PhantomData<(T, U)>,
}

impl<T, F, U> TotalFn<T, F, U> where F: Fn(T) -> U {
    #[verifier::type_invariant]
    spec fn accepts_all(self) -> bool {
        total(self.f)
    }

    closed spec fn inner(&self) -> F {
        self.f
    }

    fn new(f: F) -> (r: Self)
        requires
            total(f),
        ensures
            r.inner() == f,
    {
        TotalFn { f, _phantom: PhantomData }
    }

    fn call(&self, t: T) -> (u: U)
        ensures
            call_ensures(self.inner(), (t,), u),
    {
        proof {
            use_type_invariant(self);
        }
        (self.f)(t)
    }
}

/// Where a fail-fast adaptor stands: whether it has stopped for good, and
/// what its source has yet to yield.
pub struct Progress<T, E> {
    pub bailed: bool,
    pub remaining: Seq<Result<T, E>>,
}

impl<T, E> Progress<T, E> {
    /// The item that the next call draws from the source, if it draws one.
    pub open spec fn drawn(self) -> Option<Result<T, E>> {
        if self.bailed || self.remaining.len() == 0 {
            None
        } else {
            Some(self.remaining[0])
        }
    }

    /// Where the adaptor stands after the next call: it stops for good when
    /// the source is at its end or yields an `Err`, and it stays stopped.
    pub open spec fn advanced(self) -> Progress<T, E> {
        if self.bailed || self.remaining.len() == 0 {
            Progress { bailed: true, remaining: self.remaining }
        } else {
            Progress { bailed: self.remaining[0] is Err, remaining: self.remaining.drop_first() }
        }
    }

    /// Where the adaptor stands after `n` calls.
    pub open spec fn after(self, n: nat) -> Progress<T, E>
        decreases n,
    {
        if n == 0 {
            self
        } else {
            self.after((n - 1) as nat).advanced()
        }
    }
}

/// Where a fresh adaptor over `items` stands after `n` calls: up to the first
/// `Err` it has drawn one item with each call and goes on; past it, or past
/// the end, it has stopped.
pub proof fn lemma_progress_after<T, E>(items: Seq<Result<T, E>>, n: nat)
    ensures
        n <= first_err(items) ==> (Progress { bailed: false, remaining: items }).after(n) == (Progress {
            bailed: false,
            remaining: items.skip(n as int),
        }),
        n > first_err(items) ==> (Progress { bailed: false, remaining: items }).after(n).bailed,
    decreases n,
{
    lemma_first_err(items);
    if n > 0 {
        let m = (n - 1) as nat;
        lemma_progress_after(items, m);
        if m <= first_err(items) {
            if m < items.len() {
                assert(items.skip(m as int)[0] == items[m as int]);
                assert(items.skip(m as int).drop_first() =~= items.skip(n as int));
            }
        }
    } else {
        assert(items.skip(0) =~= items);
    }
}

/// A fresh adaptor over `items` draws the items before the first `Err` one by
/// one, each of them an `Ok`, then that `Err`, and after it nothing: neither
/// what the source holds behind the `Err`, nor anything past its end.
pub proof fn lemma_fail_fast_draws<T, E>(items: Seq<Result<T, E>>, n: nat)
    ensures
        ({
            let k = first_err(items);
            let drawn = (Progress { bailed: false, remaining: items }).after(n).drawn();
            &&& n < k ==> drawn == Some(items[n as int]) && items[n as int] is Ok
            &&& n == k && k < items.len() ==> drawn == Some(items[k]) && items[k] is Err
            &&& n > k || n >= items.len() ==> drawn is None
        }),
{
    lemma_first_err(items);
    lemma_progress_after(items, n);
    if n <= first_err(items) && n < items.len() {
        assert(items.skip(n as int)[0] == items[n as int]);
    }
}

/// An [`Iterator`] that will short-circuit some of its operations.
///
/// This iterator accepts [`Result`]s as the items of its source and, when that
/// yields a [`Result::Err`] value for the first time, it is guaranteed that
/// this will never yield another item.
#[verifier::reject_recursive_types(I)]
#[verifier::reject_recursive_types(T)]
#[verifier::reject_recursive_types(E)]
#[verifier::reject_recursive_types(F)]
#[verifier::reject_recursive_types(U)]
pub struct FailFastMapIter<I, T, E, F, U> where I: Iterator<Item = Result<T, E>>, F: Fn(T) -> U {
    bail: bool,
    iter: I,
    mapfn: TotalFn<T, F, U>,
    _phantom: PhantomData<E>,
}

impl<I, T, E, F, U> FailFastMapIter<I, T, E, F, U> where
    I: Iterator<Item = Result<T, E>>,
    F: Fn(T) -> U,
 {
    /// Whether the adaptor has stopped for good.
    pub closed spec fn bailed(&self) -> bool {
        self.bail
    }

    /// The iterator that items are drawn from.
    pub closed spec fn source(&self) -> I {
        self.iter
    }

    /// The function applied to `Ok` payloads.
    pub closed spec fn mapper(&self) -> F {
        self.mapfn.inner()
    }

    /// Draws from the adaptor until it yields nothing, and collects what it
    /// yielded: for a fresh adaptor, the payloads before the first `Err` of
    /// the source with the function applied to each, then that `Err`, and
    /// nothing more.
    pub fn into_vec(self) -> (r: Vec<Result<U, E>>)
        requires
            self.source().obeys_prophetic_iter_laws(),
            self.source().decrease() is Some,
        ensures
            ({
                let items = self.source().remaining();
                let k = first_err(items);
                if self.bailed() {
                    r@.len() == 0
                } else {
                    &&& r@.len() == if k < items.len() {
                        k + 1
                    } else {
                        k
                    }
                    &&& forall|i: int|
                        0 <= i < k ==> ((#[trigger] r@[i]) matches Ok(u) && call_ensures(
                            self.mapper(),
                            (items[i]->Ok_0,),
                            u,
                        ))
                    &&& k < items.len() ==> r@[k] == Err::<U, E>(items[k]->Err_0)
                }
            }),
    {
        let ghost items = self.source().remaining();
        let ghost k = first_err(items);
        let ghost started_bailed = self.bailed();
        let ghost mapper = self.mapper();
        let mut iter = self;
        let mut out: Vec<Result<U, E>> = Vec::new();
        proof {
            lemma_first_err(items);
            assert(items.skip(0) =~= items);
        }
        #[verifier::loop_isolation(false)]
        loop
            invariant
                iter.source().obeys_prophetic_iter_laws(),
                iter.source().decrease() is Some,
                iter.mapper() == mapper,
                started_bailed ==> iter.bailed() && out@.len() == 0,
                !iter.bailed() ==> out@.len() <= k && iter.source().remaining() == items.skip(
                    out@.len() as int,
                ),
                !started_bailed && iter.bailed() ==> out@.len() == if k < items.len() {
                    k + 1
                } else {
                    k
                },
                forall|i: int|
                    0 <= i < out@.len() && i < k ==> ((#[trigger] out@[i]) matches Ok(u) && call_ensures(
                        mapper,
                        (items[i]->Ok_0,),
                        u,
                    )),
                k < out@.len() ==> out@[k] == Err::<U, E>(items[k]->Err_0),
            decreases iter.source().decrease()->0,
        {
            let ghost n = out@.len() as int;
            assert(n < items.len() ==> items.skip(n)[0] == items[n]);
            assert(n < items.len() ==> items.skip(n).drop_first() =~= items.skip(n + 1));
            match iter.next() {
                Some(item) => {
                    out.push(item);
                },
                None => {
                    return out;
                },
            }
        }
    }
}

impl<I, T, E, F, U> Iterator for FailFastMapIter<I, T, E, F, U> where
    I: Iterator<Item = Result<T, E>>,
    F: Fn(T) -> U,
 {
    type Item = Result<U, E>;

    /// Draws an item from the source unless the adaptor has stopped. An `Ok`
    /// is handed on with the function applied to its payload; an `Err` is
    /// handed on as it is, and the adaptor stops for good; so it does at the
    /// end of the source.
    fn next(&mut self) -> (ret: Option<Self::Item>)
        ensures
            final(self).mapper() == old(self).mapper(),
            old(self).bailed() ==> ret is None && final(self).bailed() && final(self).source() == old(
                self,
            ).source(),
            old(self).source().obeys_prophetic_iter_laws() ==> {
                let before = Progress {
                    bailed: old(self).bailed(),
                    remaining: old(self).source().remaining(),
                };
                let after = Progress {
                    bailed: final(self).bailed(),
                    remaining: final(self).source().remaining(),
                };
                &&& final(self).source().obeys_prophetic_iter_laws()
                &&& after == before.advanced()
                &&& before.drawn() is None ==> ret is None
                &&& before.drawn() matches Some(Ok(t)) ==> ret matches Some(Ok(u)) && call_ensures(
                    old(self).mapper(),
                    (t,),
                    u,
                )
                &&& before.drawn() matches Some(Err(e)) ==> ret == Some(Err::<U, E>(e))
                &&& old(self).source().decrease() is Some <==> final(self).source().decrease() is Some
                &&& before.drawn() is Some && final(self).source().decrease() is Some ==> decreases_to!(
                    old(self).source().decrease()->0 => final(self).source().decrease()->0
                )
            },
    {
        if self.bail {
            None
        } else {
            match self.iter.next() {
                Some(Ok(value)) => Some(Ok(self.mapfn.call(value))),
                Some(Err(error)) => {
                    self.bail = true;
                    Some(Err(error))
                },
                None => {
                    self.bail = true;
                    None
                },
            }
        }
    }
}

impl<I, T, E, F, U> IteratorSpecImpl for FailFastMapIter<I, T, E, F, U> where
    I: Iterator<Item = Result<T, E>>,
    F: Fn(T) -> U,
 {
    /// What this adaptor yields hangs on what the function returns, which is
    /// not known ahead of the calls: `next` states its own contract instead.
    open spec fn obeys_prophetic_iter_laws(&self) -> bool {
        false
    }

    open spec fn remaining(&self) -> Seq<Self::Item> {
        Seq::empty()
    }

    open spec fn will_return_none(&self) -> bool {
        true
    }

    open spec fn decrease(&self) -> Option<nat> {
        None
    }

    open spec fn initial_value_relation(&self, init: &Self) -> bool {
        true
    }

    open spec fn peek(&self, index: int) -> Option<Self::Item> {
        None
    }
}

/// [`Iterator`] extension trait for fail-fast operations.
pub trait FailFastIteratorExt: Iterator {
    /// Maps [`Iterator`] values with a custom function when the items are
    /// [`Result`]s.
    ///
    /// Upon the first time that the source `Iterator` yields a [`Result::Err`],
    /// the `Iterator` resulting from this function will yield that value and
    /// then refuse to yield another value.
    ///
    /// The function is called through a shared reference and has to accept
    /// every payload: `next` has no way to ask for that call by call.
    fn try_map_ok<T, E, F, U>(self, mapfn: F) -> (r: FailFastMapIter<Self, T, E, F, U>) where
        Self: Iterator<Item = Result<T, E>> + Sized,
        F: Fn(T) -> U,

        requires
            total(mapfn),
        ensures
            !r.bailed(),
            r.source() == self,
            r.mapper() == mapfn,
    {
        FailFastMapIter { bail: false, iter: self, mapfn: TotalFn::new(mapfn), _phantom: PhantomData }
    }

    /// Folds [`Iterator`]s values with a custom function when the items are
    /// [`Result`]s.
    ///
    /// This function operates only on the [`Result::Ok`] values yielded by the
    /// iterator. Upon the first time that the source `Iterator` yields a
    /// [`Result::Err`], this function will return that value and stop processing
    /// the remaining items.
    ///
    /// The fold ends where the source ends, so the source has to be one that
    /// does: one that keeps the laws of iterators and has a measure that its
    /// calls decrease. The function has to accept every accumulator with every
    /// payload.
    fn try_fold_ok<T, E, B, F>(self, initial: B, foldfn: F) -> (r: Result<B, E>) where
        Self: Iterator<Item = Result<T, E>> + Sized,
        F: FnMut(B, T) -> B,

        requires
            self.obeys_prophetic_iter_laws(),
            self.decrease() is Some,
            forall|b: B, t: T| call_requires(foldfn, (b, t)),
        ensures
            ({
                let items = self.remaining();
                let k = first_err(items);
                if k < items.len() {
                    r == Err::<B, E>(items[k]->Err_0)
                } else {
                    r matches Ok(folded) && folds_to(foldfn, initial, payloads(items), folded)
                }
            }),
    {
        let ghost items = self.remaining();
        let ghost mut seen: int = 0;
        let ghost given = foldfn;
        let mut iter = self;
        let mut foldfn = foldfn;
        let mut folded = initial;
        proof {
            lemma_first_err(items);
            assert(items.skip(0) =~= items);
            assert(payloads(items.take(0)) =~= Seq::empty());
        }
        #[verifier::loop_isolation(false)]
        loop
            invariant
                iter.obeys_prophetic_iter_laws(),
                iter.decrease() is Some,
                forall|b: B, t: T| call_requires(foldfn, (b, t)),
                0 <= seen <= items.len(),
                iter.remaining() == items.skip(seen),
                foldfn == given,
                seen <= first_err(items),
                folds_to(foldfn, initial, payloads(items.take(seen)), folded),
            decreases iter.decrease()->0,
        {
            let ghost before = folded;
            match iter.next() {
                Some(Ok(value)) => {
                    folded = foldfn(folded, value);
                    proof {
                        assert(items.skip(seen)[0] == items[seen]);
                        assert(items.skip(seen).drop_first() =~= items.skip(seen + 1));
                        let prefix = payloads(items.take(seen + 1));
                        assert(prefix.drop_last() =~= payloads(items.take(seen)));
                        assert(prefix.last() == value);
                        seen = seen + 1;
                    }
                },
                Some(Err(error)) => {
                    assert(items.skip(seen)[0] == items[seen]);
                    return Err(error);
                },
                None => {
                    assert(items.take(seen) =~= items);
                    return Ok(folded);
                },
            }
        }
    }
}

impl<I, T, E> FailFastIteratorExt for I where I: Iterator<Item = Result<T, E>> {

}

} // verus!
