//! Request/response correlation for the resident worker's JSON-line channel.
use vstd::prelude::*;

verus! {

/// The abstract table: the next id to hand out, and the ids still awaiting a response.
pub struct PendingModel {
    pub next_id: u64,
    pub pending: Set<u64>,
}

pub open spec fn model_wf(m: PendingModel) -> bool {
    &&& 1 <= m.next_id
    &&& forall|id: u64| #[trigger] m.pending.contains(id) ==> 1 <= id < m.next_id
}

/// Registering a request: a fresh id, or nothing once ids are exhausted.
pub open spec fn register_spec(m: PendingModel) -> (PendingModel, Option<u64>) {
    if m.next_id == u64::MAX {
        (m, None)
    } else {
        (
            PendingModel { next_id: (m.next_id + 1) as u64, pending: m.pending.insert(m.next_id) },
            Some(m.next_id),
        )
    }
}

/// Delivering a response: it goes to the request with its id, if that one is pending,
/// which is then no longer pending; a response without such an id goes nowhere.
pub open spec fn complete_spec(m: PendingModel, response_id: Option<u64>) -> (
    PendingModel,
    Option<u64>,
) {
    match response_id {
        Some(id) => if m.pending.contains(id) {
            (PendingModel { pending: m.pending.remove(id), ..m }, Some(id))
        } else {
            (m, None)
        },
        None => (m, None),
    }
}

/// Ids of the requests sent and not yet answered; ids increase strictly.
#[derive(Debug)]
pub struct PendingRequests {
    next_id: u64,
    pending: Vec<u64>,
}

impl View for PendingRequests {
    type V = PendingModel;

    closed spec fn view(&self) -> PendingModel {
        PendingModel { next_id: self.next_id, pending: self.pending@.to_set() }
    }
}

impl PendingRequests {
    pub closed spec fn wf(&self) -> bool {
        &&& 1 <= self.next_id
        &&& self.pending@.no_duplicates()
        &&& forall|i: int| 0 <= i < self.pending@.len() ==> 1 <= #[trigger] self.pending@[i] < self.next_id
    }

    /// A well-formed table has a well-formed model.
    pub proof fn lemma_model_wf(&self)
        requires
            self.wf(),
        ensures
            model_wf(self@),
    {
        assert forall|id: u64| #[trigger] self@.pending.contains(id) implies 1 <= id < self@.next_id by {
            assert(self.pending@.contains(id));
        }
    }

    /// An empty table whose first id is 1.
    pub fn new() -> (r: Self)
        ensures
            r.wf(),
            r@.next_id == 1,
            r@.pending == Set::<u64>::empty(),
    {
        let r = PendingRequests { next_id: 1, pending: Vec::new() };
        assert(r.pending@.to_set() =~= Set::<u64>::empty());
        r
    }

    /// Allocates the next id and records it as pending.
    pub fn register(&mut self) -> (r: Option<u64>)
        requires
            old(self).wf(),
        ensures
            final(self).wf(),
            model_wf(final(self)@),
            (final(self)@, r) == register_spec(old(self)@),
            r is Some ==> !old(self)@.pending.contains(r->0),
    {
        proof { self.lemma_model_wf(); }
        if self.next_id == u64::MAX {
            return None;
        }
        let id = self.next_id;
        proof {
            if self.pending@.contains(id) {
                let i = choose|i: int| 0 <= i < self.pending@.len() && self.pending@[i] == id;
                assert(self.pending@[i] < self.next_id);
            }
        }
        let ghost before = self.pending@;
        self.pending.push(id);
        self.next_id = id + 1;
        proof {
            assert(self.pending@ == before.push(id));
            assert(self.pending@.to_set() =~= before.to_set().insert(id)) by {
                assert forall|x: u64| self.pending@.contains(x) <==> (before.contains(x) || x == id) by {
                    if self.pending@.contains(x) {
                        let i = choose|i: int| 0 <= i < self.pending@.len() && self.pending@[i] == x;
                        if i < before.len() {
                            assert(before[i] == x);
                        }
                    }
                    if before.contains(x) {
                        let i = choose|i: int| 0 <= i < before.len() && before[i] == x;
                        assert(self.pending@[i] == x);
                    }
                    if x == id {
                        assert(self.pending@[before.len() as int] == x);
                    }
                }
            }
            self.lemma_model_wf();
        }
        Some(id)
    }

    /// Hands a response to its request: `Some(id)` when `response_id` names a pending
    /// request, which stops being pending; otherwise the table stays as it was.
    pub fn complete(&mut self, response_id: Option<u64>) -> (r: Option<u64>)
        requires
            old(self).wf(),
        ensures
            final(self).wf(),
            (final(self)@, r) == complete_spec(old(self)@, response_id),
    {
        let id = match response_id {
            Some(id) => id,
            None => return None,
        };
        let ghost orig = self.pending@;
        let mut i: usize = 0;
        while i < self.pending.len()
            invariant
                self.wf(),
                self.pending@ == orig,
                orig == old(self).pending@,
                self.next_id == old(self).next_id,
                response_id == Some(id),
                0 <= i <= self.pending@.len(),
                forall|j: int| 0 <= j < i ==> self.pending@[j] != id,
            decreases self.pending@.len() - i,
        {
            if self.pending[i] == id {
                let ghost before = self.pending@;
                self.pending.remove(i);
                proof {
                    assert(self.pending@ == before.remove(i as int));
                    assert forall|x: u64| self.pending@.contains(x) <==> (before.contains(x) && x != id) by {
                        if self.pending@.contains(x) {
                            let k = choose|k: int| 0 <= k < self.pending@.len() && self.pending@[k] == x;
                            if k < i {
                                assert(before[k] == x);
                            } else {
                                assert(before[k + 1] == x);
                            }
                        }
                        if before.contains(x) && x != id {
                            let k = choose|k: int| 0 <= k < before.len() && before[k] == x;
                            if k < i {
                                assert(self.pending@[k] == x);
                            } else {
                                assert(k != i);
                                assert(self.pending@[k - 1] == x);
                            }
                        }
                    }
                    assert(self.pending@.to_set() =~= before.to_set().remove(id));
                    assert(before.to_set().contains(id));
                    assert forall|a: int, b: int|
                        0 <= a < b < self.pending@.len() implies self.pending@[a] != self.pending@[b] by {
                        let a0 = if a < i { a } else { a + 1 };
                        let b0 = if b < i { b } else { b + 1 };
                        assert(self.pending@[a] == before[a0]);
                        assert(self.pending@[b] == before[b0]);
                    }
                    assert forall|k: int| 0 <= k < self.pending@.len() implies 1 <= #[trigger] self.pending@[k]
                        < self.next_id by {
                        let k0 = if k < i { k } else { k + 1 };
                        assert(self.pending@[k] == before[k0]);
                    }
                    assert(old(self)@.pending.contains(id));
                    assert(self@.pending =~= old(self)@.pending.remove(id));
                    assert(self@.next_id == old(self)@.next_id);
                }
                return Some(id);
            }
            i += 1;
        }
        proof {
            assert(!self.pending@.contains(id));
        }
        None
    }

    /// Whether a response with this id would find its request.
    pub fn is_pending(&self, id: u64) -> (r: bool)
        requires
            self.wf(),
        ensures
            r == self@.pending.contains(id),
    {
        let mut i: usize = 0;
        while i < self.pending.len()
            invariant
                0 <= i <= self.pending@.len(),
                forall|j: int| 0 <= j < i ==> self.pending@[j] != id,
            decreases self.pending@.len() - i,
        {
            if self.pending[i] == id {
                assert(self.pending@.to_set().contains(id));
                return true;
            }
            i += 1;
        }
        false
    }

    /// The number of requests awaiting a response.
    pub fn len(&self) -> (r: usize)
        requires
            self.wf(),
        ensures
            r == self@.pending.len(),
    {
        proof {
            self.pending@.unique_seq_to_set();
        }
        self.pending.len()
    }

    /// Tears the channel down: every pending id is handed back once, and none stays.
    pub fn drain(&mut self) -> (r: Vec<u64>)
        requires
            old(self).wf(),
        ensures
            final(self).wf(),
            final(self)@.next_id == old(self)@.next_id,
            final(self)@.pending == Set::<u64>::empty(),
            r@.to_set() == old(self)@.pending,
            r@.no_duplicates(),
    {
        let mut r: Vec<u64> = Vec::new();
        std::mem::swap(&mut r, &mut self.pending);
        assert(self.pending@.to_set() =~= Set::<u64>::empty());
        r
    }
}

/// Two requests registered one after the other, answered in the reverse order, each
/// receive their own response, and neither is pending afterwards; a repeated response
/// reaches nobody.
pub proof fn lemma_reversed_responses_are_matched(m: PendingModel)
    requires
        model_wf(m),
        m.next_id < u64::MAX - 1,
    ensures
        ({
            let (m1, a) = register_spec(m);
            let (m2, b) = register_spec(m1);
            let (m3, rb) = complete_spec(m2, b);
            let (m4, ra) = complete_spec(m3, a);
            let (m5, again) = complete_spec(m4, b);
            &&& a is Some && b is Some && a != b
            &&& rb == b
            &&& ra == a
            &&& again is None
            &&& !m4.pending.contains(a->0) && !m4.pending.contains(b->0)
            &&& m4.pending == m.pending
        }),
{
    let (m1, a) = register_spec(m);
    let (m2, b) = register_spec(m1);
    assert(!m.pending.contains(m.next_id));
    let (m3, rb) = complete_spec(m2, b);
    let (m4, ra) = complete_spec(m3, a);
    assert(m4.pending =~= m.pending);
}

/// A response that names no pending request changes nothing and satisfies no call.
pub proof fn lemma_unmatched_response_is_inert(m: PendingModel, response_id: Option<u64>)
    requires
        response_id is None || !m.pending.contains(response_id->0),
    ensures
        complete_spec(m, response_id) == (m, None::<u64>),
{
}

/// What a response line means for its caller: the `data` text when `success` is true,
/// otherwise the `error` text, or "Unknown error" when it has none.
pub fn response_outcome(success: Option<bool>, data: String, error: Option<String>) -> (r: Result<
    String,
    String,
>)
    ensures
        success == Some(true) ==> r == Ok::<String, String>(data),
        success != Some(true) && error is Some ==> r == Err::<String, String>(error->0),
        success != Some(true) && error is None ==> r is Err && r->Err_0@ == "Unknown error"@,
{
    match success {
        Some(true) => Ok(data),
        _ => match error {
            Some(e) => Err(e),
            None => Err(String::from_str("Unknown error")),
        },
    }
}

} // verus!
