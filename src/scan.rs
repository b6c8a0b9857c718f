use vstd::prelude::*;

verus! {

/// Absolute identifier after adding deltas `0..=k`, in 16-bit arithmetic.
pub open spec fn running_id(deltas: Seq<u16>, k: int) -> int
    decreases k + 1,
{
    if k < 0 {
        0
    } else {
        (running_id(deltas, k - 1) + deltas[k]) % 65536
    }
}

/// Row `k` opens a new group: the first row always does, a later one
/// when its absolute identifier differs from the one before it.
pub open spec fn opens_group(deltas: Seq<u16>, k: int) -> bool {
    k == 0 || running_id(deltas, k) != running_id(deltas, k - 1)
}

/// Row `k` opens a new scope: when it opens a resource, or when the
/// scope identifier changes.
pub open spec fn opens_scope(res: Seq<u16>, scope: Seq<u16>, k: int) -> bool {
    opens_group(res, k) || opens_group(scope, k)
}

/// Running totals and last committed identifiers of one forward scan.
pub struct Accumulator {
    pub res_id: u16,
    pub scope_id: u16,
    pub prev_res_id: Option<u16>,
    pub prev_scope_id: Option<u16>,
}

/// What one row does to the hierarchy.
#[derive(PartialEq, Eq, Structural, Clone, Copy, Debug)]
pub struct Boundary {
    pub new_resource: bool,
    pub new_scope: bool,
}

impl Accumulator {
    /// Both totals at zero and both markers unset.
    pub fn new() -> (r: Accumulator)
        ensures
            r.res_id == 0,
            r.scope_id == 0,
            r.prev_res_id is None,
            r.prev_scope_id is None,
    {
        Accumulator { res_id: 0, scope_id: 0, prev_res_id: None, prev_scope_id: None }
    }

    /// Adds one row's deltas and reports whether the row opens a resource
    /// and whether it opens a scope.
    pub fn advance(&mut self, res_delta: u16, scope_delta: u16) -> (r: Boundary)
        ensures
            final(self).res_id == (old(self).res_id + res_delta) % 65536,
            final(self).scope_id == (old(self).scope_id + scope_delta) % 65536,
            final(self).prev_res_id == Some(final(self).res_id),
            final(self).prev_scope_id == Some(final(self).scope_id),
            r.new_resource == (old(self).prev_res_id != Some(final(self).res_id)),
            r.new_scope == (r.new_resource || old(self).prev_scope_id != Some(
                final(self).scope_id,
            )),
    {
        let s: u32 = self.res_id as u32 + res_delta as u32;
        self.res_id = (s % 65536) as u16;
        let new_resource = self.prev_res_id != Some(self.res_id);
        if new_resource {
            self.prev_res_id = Some(self.res_id);
            self.prev_scope_id = None;
        }
        let t: u32 = self.scope_id as u32 + scope_delta as u32;
        self.scope_id = (t % 65536) as u16;
        let new_scope = self.prev_scope_id != Some(self.scope_id);
        if new_scope {
            self.prev_scope_id = Some(self.scope_id);
        }
        Boundary { new_resource, new_scope }
    }
}

/// Runs the accumulator over all rows and reports each row's boundaries.
pub fn boundaries(res_deltas: &Vec<u16>, scope_deltas: &Vec<u16>) -> (r: Vec<Boundary>)
    requires
        res_deltas@.len() == scope_deltas@.len(),
    ensures
        r@.len() == res_deltas@.len(),
        forall|k: int|
            0 <= k < r@.len() ==> {
                &&& (#[trigger] r@[k]).new_resource == opens_group(res_deltas@, k)
                &&& r@[k].new_scope == opens_scope(res_deltas@, scope_deltas@, k)
            },
{
    let mut acc = Accumulator::new();
    let mut out: Vec<Boundary> = Vec::new();
    let n = res_deltas.len();
    let mut i: usize = 0;
    while i < n
        invariant
            n == res_deltas@.len(),
            n == scope_deltas@.len(),
            0 <= i <= n,
            out@.len() == i,
            acc.res_id == running_id(res_deltas@, i - 1),
            acc.scope_id == running_id(scope_deltas@, i - 1),
            i == 0 ==> acc.prev_res_id is None && acc.prev_scope_id is None,
            i > 0 ==> acc.prev_res_id == Some(acc.res_id) && acc.prev_scope_id == Some(
                acc.scope_id,
            ),
            forall|k: int|
                0 <= k < i ==> {
                    &&& (#[trigger] out@[k]).new_resource == opens_group(res_deltas@, k)
                    &&& out@[k].new_scope == opens_scope(res_deltas@, scope_deltas@, k)
                },
        decreases n - i,
    {
        let b = acc.advance(res_deltas[i], scope_deltas[i]);
        out.push(b);
        i = i + 1;
    }
    out
}

/// With every delta zero, the absolute identifier stays zero.
pub proof fn lemma_zero_deltas_keep_id(deltas: Seq<u16>, k: int)
    requires
        forall|j: int| 0 <= j < deltas.len() ==> deltas[j] == 0,
        k < deltas.len(),
    ensures
        running_id(deltas, k) == 0,
    decreases k + 1,
{
    if k >= 0 {
        lemma_zero_deltas_keep_id(deltas, k - 1);
    }
}

/// With all resource and scope deltas zero, only the first row opens a
/// resource or a scope: the table decodes to one resource holding one
/// scope, with one metric for each row.
pub proof fn lemma_zero_deltas_single_group(res: Seq<u16>, scope: Seq<u16>)
    requires
        res.len() == scope.len(),
        forall|j: int| 0 <= j < res.len() ==> res[j] == 0,
        forall|j: int| 0 <= j < scope.len() ==> scope[j] == 0,
    ensures
        forall|k: int| 0 < k < res.len() ==> !#[trigger] opens_scope(res, scope, k),
        res.len() > 0 ==> opens_group(res, 0) && opens_scope(res, scope, 0),
{
    assert forall|k: int| 0 < k < res.len() implies !#[trigger] opens_scope(res, scope, k) by {
        lemma_zero_deltas_keep_id(res, k);
        lemma_zero_deltas_keep_id(res, k - 1);
        lemma_zero_deltas_keep_id(scope, k);
        lemma_zero_deltas_keep_id(scope, k - 1);
    }
}

} // verus!
