use vstd::prelude::*;

use crate::text::str_eq;

verus! {

/// How many times `x` occurs in `s`.
pub open spec fn occurrences<T>(s: Seq<T>, x: T) -> nat
    decreases s.len(),
{
    if s.len() == 0 {
        0
    } else {
        occurrences(s.drop_last(), x) + if s.last() == x {
            1nat
        } else {
            0nat
        }
    }
}

proof fn lemma_occurrences_bound<T>(s: Seq<T>, x: T)
    ensures
        occurrences(s, x) <= s.len(),
    decreases s.len(),
{
    if s.len() > 0 {
        lemma_occurrences_bound(s.drop_last(), x);
    }
}

/// The class of a request in the totals: its outcome code and its method label.
pub type RequestClass = (Seq<char>, Seq<char>);

/// Request counts: how many are open, and how many have completed in each class.
pub struct RequestMetrics {
    _in_flight: u64,
    _totals: Vec<(String, String, u64)>,
    _completed_count: u64,
    _open: Ghost<nat>,
    _completed: Ghost<Seq<RequestClass>>,
}

impl RequestMetrics {
    /// Requests begun and not yet completed.
    pub closed spec fn open(&self) -> nat {
        self._open@
    }

    /// The classes of the completed requests, in order of completion.
    pub closed spec fn completed(&self) -> Seq<RequestClass> {
        self._completed@
    }

    pub closed spec fn in_flight(&self) -> nat {
        self._in_flight as nat
    }

    /// The total recorded for a class; zero for a class never seen.
    pub closed spec fn total(&self, class: RequestClass) -> nat {
        if exists|i: int| 0 <= i < self._totals@.len() && (self._totals@[i].0@, self._totals@[i].1@) == class {
            let i = choose|i: int|
                0 <= i < self._totals@.len() && (self._totals@[i].0@, self._totals@[i].1@) == class;
            self._totals@[i].2 as nat
        } else {
            0
        }
    }

    /// The gauge counts the open requests, and each class's total counts its
    /// completed requests.
    pub closed spec fn wf(&self) -> bool {
        &&& self._in_flight as nat == self._open@
        &&& forall|i: int, j: int|
            0 <= i < j < self._totals@.len() ==> (self._totals@[i].0@, self._totals@[i].1@) != (
                self._totals@[j].0@,
                self._totals@[j].1@,
            )
        &&& forall|i: int|
            0 <= i < self._totals@.len() ==> self._totals@[i].2 as nat == occurrences(
                self._completed@,
                (self._totals@[i].0@, self._totals@[i].1@),
            )
        &&& forall|c: RequestClass|
            #![trigger occurrences(self._completed@, c)]
            occurrences(self._completed@, c) > 0 ==> exists|i: int|
                0 <= i < self._totals@.len() && (self._totals@[i].0@, self._totals@[i].1@) == c
        &&& self._completed@.len() == self._completed_count as nat
    }

    pub fn new() -> (r: RequestMetrics)
        ensures
            r.wf(),
            r.open() == 0,
            r.completed() == Seq::<RequestClass>::empty(),
    {
        RequestMetrics {
            _in_flight: 0,
            _totals: Vec::new(),
            _completed_count: 0,
            _open: Ghost(0),
            _completed: Ghost(Seq::empty()),
        }
    }

    /// Requests being served.
    pub fn in_flight_count(&self) -> (r: u64)
        requires
            self.wf(),
        ensures
            r == self.open(),
    {
        self._in_flight
    }

    /// A request begins; returns the new number of open requests.
    pub fn begin(&mut self) -> (r: u64)
        requires
            old(self).wf(),
            old(self).open() < u64::MAX,
        ensures
            final(self).wf(),
            final(self).open() == old(self).open() + 1,
            final(self).completed() == old(self).completed(),
            r == final(self).open(),
    {
        let ghost old_totals = self._totals@;
        self._in_flight = self._in_flight + 1;
        self._open = Ghost(self._open@ + 1);
        assert forall|c: RequestClass|
            #![trigger occurrences(self._completed@, c)]
            occurrences(self._completed@, c) > 0 implies exists|i: int|
                0 <= i < self._totals@.len() && (self._totals@[i].0@, self._totals@[i].1@) == c by {
            let k = choose|k: int| 0 <= k < old_totals.len() && (old_totals[k].0@, old_totals[k].1@) == c;
            assert((self._totals@[k].0@, self._totals@[k].1@) == c);
        }
        self._in_flight
    }

    /// Whether one more completion can be counted.
    pub fn can_complete(&self) -> (r: bool)
        requires
            self.wf(),
        ensures
            r == (self.open() > 0 && self.completed().len() < u64::MAX),
    {
        self._in_flight > 0 && self._completed_count < u64::MAX
    }

    fn find_class(&self, code: &str, method: &str) -> (r: Option<usize>)
        ensures
            r matches Some(i) ==> i < self._totals@.len() && (self._totals@[i as int].0@, self._totals@[
                i as int].1@) == (code@, method@),
            r is None ==> forall|k: int|
                0 <= k < self._totals@.len() ==> (self._totals@[k].0@, self._totals@[k].1@) != (
                    code@,
                    method@,
                ),
    {
        let mut i: usize = 0;
        while i < self._totals.len()
            invariant
                i <= self._totals@.len(),
                forall|k: int|
                    0 <= k < i ==> (self._totals@[k].0@, self._totals@[k].1@) != (code@, method@),
            decreases self._totals@.len() - i,
        {
            if str_eq(self._totals[i].0.as_str(), code) && str_eq(self._totals[i].1.as_str(), method) {
                return Some(i);
            }
            i = i + 1;
        }
        None
    }

    /// A request completes in the class `(code, method)`; returns the class's
    /// new total.
    pub fn complete(&mut self, code: &str, method: &str) -> (r: u64)
        requires
            old(self).wf(),
            old(self).open() > 0,
            old(self).completed().len() < u64::MAX,
        ensures
            final(self).wf(),
            final(self).open() == old(self).open() - 1,
            final(self).completed() == old(self).completed().push((code@, method@)),
            r == occurrences(final(self).completed(), (code@, method@)),
    {
        let ghost class = (code@, method@);
        let ghost before = self._completed@;
        let ghost old_totals = self._totals@;
        let found = self.find_class(code, method);
        self._in_flight = self._in_flight - 1;
        self._completed_count = self._completed_count + 1;
        self._open = Ghost((self._open@ - 1) as nat);
        self._completed = Ghost(before.push(class));
        proof {
            assert forall|c: RequestClass| #[trigger]
                occurrences(before.push(class), c) == occurrences(before, c) + if c == class {
                    1nat
                } else {
                    0nat
                } by {
                assert(before.push(class).drop_last() =~= before);
            }
            lemma_occurrences_bound(before, class);
        }
        match found {
            Some(i) => {
                let n = self._totals[i].2;
                self._totals.set(i, (self._totals[i].0.clone(), self._totals[i].1.clone(), n + 1));
                proof {
                    assert forall|c: RequestClass|
                        #![trigger occurrences(self._completed@, c)]
                        occurrences(self._completed@, c) > 0 implies exists|k: int|
                            0 <= k < self._totals@.len() && (self._totals@[k].0@, self._totals@[k].1@)
                                == c by {
                        if c != class {
                            assert(occurrences(before, c) > 0);
                            let k = choose|k: int|
                                0 <= k < old_totals.len() && (old_totals[k].0@, old_totals[k].1@) == c;
                            assert((self._totals@[k].0@, self._totals@[k].1@) == c);
                        } else {
                            assert((self._totals@[i as int].0@, self._totals@[i as int].1@) == c);
                        }
                    }
                }
                n + 1
            },
            None => {
                proof {
                    if occurrences(before, class) > 0 {
                        let k = choose|k: int|
                            0 <= k < old_totals.len() && (old_totals[k].0@, old_totals[k].1@) == class;
                        assert(false);
                    }
                }
                self._totals.push((String::from_str(code), String::from_str(method), 1));
                proof {
                    assert forall|c: RequestClass|
                        #![trigger occurrences(self._completed@, c)]
                        occurrences(self._completed@, c) > 0 implies exists|k: int|
                            0 <= k < self._totals@.len() && (self._totals@[k].0@, self._totals@[k].1@)
                                == c by {
                        if c != class {
                            assert(occurrences(before, c) > 0);
                            let k = choose|k: int|
                                0 <= k < old_totals.len() && (old_totals[k].0@, old_totals[k].1@) == c;
                            assert((self._totals@[k].0@, self._totals@[k].1@) == c);
                        } else {
                            assert((self._totals@[old_totals.len() as int].0@, self._totals@[old_totals.len() as int].1@) == c);
                        }
                    }
                }
                1
            },
        }
    }
}

/// Over any run of begun and completed requests, the gauge counts the
/// requests begun and not completed, and each class's total counts the
/// completed requests of that class.
pub proof fn lemma_metrics_invariant(m: RequestMetrics, c: RequestClass)
    requires
        m.wf(),
    ensures
        m.in_flight() == m.open(),
        m.total(c) == occurrences(m.completed(), c),
{
    if occurrences(m.completed(), c) > 0 {
        let i = choose|i: int| 0 <= i < m._totals@.len() && (m._totals@[i].0@, m._totals@[i].1@) == c;
        assert(m._totals@[i].2 as nat == occurrences(m._completed@, c));
    }
}

} // verus!
