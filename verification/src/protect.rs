//! Keeping R objects alive while Rust holds them.
//!
//! Every object handed to R's garbage collector must stay reachable from a
//! preserved root while Rust code uses it. The roots form one doubly linked
//! list of cons cells: an anchor cell, preserved once, followed by one cell per
//! protected object. Protecting an object links a new cell right after the
//! anchor and returns that cell as a token; releasing the token unlinks its
//! cell in constant time. The cells live in an arena indexed by integers; the
//! index `NIL` stands for R's `NULL`.

use vstd::prelude::*;

verus! {

/// The handle of R's `NULL`.
pub const NIL: usize = 0;

/// The handle of the anchor cell of the list.
pub const ANCHOR: usize = 1;

/// A cons cell: `car` links to the previous cell, `cdr` to the next one and
/// `tag` holds the protected object.
#[derive(Clone, Copy, Debug)]
pub struct Cell {
    pub car: usize,
    pub cdr: usize,
    pub tag: usize,
}

/// The list of preserved objects.
pub struct PreservedList {
    cells: Vec<Cell>,
    /// The tokens in list order, from the cell after the anchor.
    order: Ghost<Seq<usize>>,
}

/// `after` is `before` with `obj` protected under the new `token`.
pub open spec fn inserted(before: PreservedList, after: PreservedList, obj: usize, token: usize) -> bool {
    if obj == NIL {
        &&& token == NIL
        &&& after.tokens() == before.tokens()
        &&& after.objects() == before.objects()
    } else {
        &&& token != NIL
        &&& !before.tokens().contains(token)
        &&& after.tokens() == seq![token] + before.tokens()
        &&& after.objects() == before.objects().insert(token, obj)
    }
}

/// `after` is `before` with the object of `token` released.
pub open spec fn released(before: PreservedList, after: PreservedList, token: usize) -> bool {
    if token == NIL {
        &&& after.tokens() == before.tokens()
        &&& after.objects() == before.objects()
    } else {
        &&& after.tokens() == before.tokens().remove(before.tokens().index_of(token))
        &&& after.objects() == before.objects().remove(token)
    }
}

/// The links of the cells agree with the token order: the anchor's `cdr`
/// is the first token, each token's `car` is the cell before it and its `cdr`
/// the cell after it (`NIL` after the last), no token occurs twice, each is a
/// cell of its own past the anchor, and each holds an object.
pub open spec fn links_consistent(cells: Seq<Cell>, order: Seq<usize>) -> bool {
    &&& cells.len() >= 2
    &&& forall|i: int, j: int|
        0 <= i < order.len() && 0 <= j < order.len() && i != j ==> order[i] != order[j]
    &&& forall|i: int| 0 <= i < order.len() ==> 2 <= #[trigger] order[i] < cells.len()
    &&& cells[ANCHOR as int].cdr == (if order.len() == 0 { NIL } else { order[0] })
    &&& forall|i: int|
        0 <= i < order.len() ==> (#[trigger] cells[order[i] as int]).car == (if i == 0 {
            ANCHOR
        } else {
            order[i - 1]
        })
    &&& forall|i: int|
        0 <= i < order.len() ==> (#[trigger] cells[order[i] as int]).cdr == (if i == order.len()
            - 1 {
            NIL
        } else {
            order[i + 1]
        })
    &&& forall|i: int| 0 <= i < order.len() ==> (#[trigger] cells[order[i] as int]).tag != NIL
}

impl PreservedList {
    /// The tokens of the protected objects, most recently protected first.
    pub closed spec fn tokens(&self) -> Seq<usize> {
        self.order@
    }

    /// The cells, by handle.
    pub closed spec fn cell_seq(&self) -> Seq<Cell> {
        self.cells@
    }

    /// The object that a token protects.
    pub open spec fn object_of(&self, token: usize) -> usize {
        self.cell_seq()[token as int].tag
    }

    /// The protected objects, by token.
    pub open spec fn objects(&self) -> Map<usize, usize> {
        Map::new(|t: usize| self.tokens().contains(t), |t: usize| self.object_of(t))
    }

    /// The linked cells agree with the token order.
    pub open spec fn wf(&self) -> bool {
        links_consistent(self.cell_seq(), self.tokens())
    }

    /// The number of cells, the anchor and `NIL` included.
    pub fn num_cells(&self) -> (n: usize)
        ensures
            n == self.cell_seq().len(),
    {
        self.cells.len()
    }

    /// Whether `token` is one of the tokens of the list: the cells are
    /// followed from the anchor.
    pub fn is_protected(&self, token: usize) -> (b: bool)
        requires
            self.wf(),
        ensures
            b == self.tokens().contains(token),
    {
        let ghost order = self.order@;
        let ghost mut i: int = 0;
        let mut h = self.cells[ANCHOR].cdr;
        while h != NIL
            invariant
                self.wf(),
                order == self.order@,
                0 <= i <= order.len(),
                h == (if i < order.len() { order[i] } else { NIL }),
                forall|j: int| 0 <= j < i ==> order[j] != token,
            decreases order.len() - i,
        {
            assert(i < order.len()) by {
                if i >= order.len() {
                    assert(h == NIL);
                }
            }
            if h == token {
                assert(order[i] == token);
                return true;
            }
            h = self.cells[h].cdr;
            proof {
                i = i + 1;
            }
        }
        assert(i == order.len()) by {
            if i < order.len() {
                assert(2 <= order[i]);
            }
        }
        proof {
            if order.contains(token) {
                let k = choose|k: int| 0 <= k < order.len() && order[k] == token;
                assert(order[k] != token);
            }
        }
        false
    }

    /// The cell of a handle.
    pub fn cell(&self, handle: usize) -> (c: Cell)
        requires
            handle < self.cell_seq().len(),
        ensures
            c == self.cell_seq()[handle as int],
    {
        self.cells[handle]
    }

    /// Creates the list with its anchor cell and no protected object.
    pub fn new() -> (l: PreservedList)
        ensures
            l.wf(),
            l.tokens() == Seq::<usize>::empty(),
    {
        let mut cells: Vec<Cell> = Vec::new();
        cells.push(Cell { car: NIL, cdr: NIL, tag: NIL });
        cells.push(Cell { car: NIL, cdr: NIL, tag: NIL });
        PreservedList { cells, order: Ghost(Seq::empty()) }
    }

    /// Protects `obj` and returns the token that releases it. `NULL` needs no
    /// protection: it gives the `NULL` token and leaves the list as it is.
    pub fn insert_to_preserved_list(&mut self, obj: usize) -> (token: usize)
        requires
            old(self).wf(),
        ensures
            final(self).wf(),
            inserted(*old(self), *final(self), obj, token),
    {
        if obj == NIL {
            return NIL;
        }
        let ghost old_order = self.order@;
        let ghost old_cells = self.cells@;
        let token = self.cells.len();
        let first = self.cells[ANCHOR].cdr;
        self.cells.push(Cell { car: ANCHOR, cdr: first, tag: obj });
        let anchor_cell = self.cells[ANCHOR];
        self.cells.set(ANCHOR, Cell { car: anchor_cell.car, cdr: token, tag: anchor_cell.tag });
        if first != NIL {
            let c = self.cells[first];
            self.cells.set(first, Cell { car: token, cdr: c.cdr, tag: c.tag });
        }
        self.order = Ghost(seq![token] + old_order);
        proof {
            let order = self.order@;
            let cells = self.cells@;
            assert(!old_order.contains(token)) by {
                if old_order.contains(token) {
                    let k = choose|k: int| 0 <= k < old_order.len() && old_order[k] == token;
                    assert(2 <= old_order[k] < old_cells.len());
                }
            }
            assert forall|i: int| 0 <= i < order.len() implies 2 <= #[trigger] order[i]
                < cells.len() by {
                if i > 0 {
                    assert(order[i] == old_order[i - 1]);
                }
            }
            assert forall|i: int, j: int|
                0 <= i < order.len() && 0 <= j < order.len() && i != j implies order[i]
                != order[j] by {
                if i > 0 && j > 0 {
                    assert(order[i] == old_order[i - 1]);
                    assert(order[j] == old_order[j - 1]);
                } else if i > 0 {
                    assert(order[i] == old_order[i - 1]);
                    assert(2 <= old_order[i - 1] < old_cells.len());
                } else if j > 0 {
                    assert(order[j] == old_order[j - 1]);
                    assert(2 <= old_order[j - 1] < old_cells.len());
                }
            }
            assert forall|i: int| 0 <= i < order.len() implies (#[trigger] cells[order[i] as int]).car
                == (if i == 0 { ANCHOR } else { order[i - 1] }) by {
                if i > 1 {
                    assert(order[i] == old_order[i - 1]);
                    assert(old_cells[old_order[i - 1] as int].car == old_order[i - 2]);
                    assert(old_order[i - 1] != old_order[0]);
                }
            }
            assert forall|i: int| 0 <= i < order.len() implies (#[trigger] cells[order[i] as int]).cdr
                == (if i == order.len() - 1 { NIL } else { order[i + 1] }) by {
                if i > 0 {
                    assert(order[i] == old_order[i - 1]);
                    assert(old_cells[old_order[i - 1] as int].cdr == (if i - 1 == old_order.len()
                        - 1 {
                        NIL
                    } else {
                        old_order[i]
                    }));
                }
            }
            assert forall|i: int| 0 <= i < order.len() implies (#[trigger] cells[order[i] as int]).tag
                != NIL by {
                if i > 0 {
                    assert(order[i] == old_order[i - 1]);
                }
            }
            assert forall|t: usize| #[trigger] old_order.contains(t) implies cells[t as int].tag
                == old_cells[t as int].tag by {
                let k = choose|k: int| 0 <= k < old_order.len() && old_order[k] == t;
                assert(2 <= old_order[k] < old_cells.len());
            }
            assert forall|t: usize| #[trigger] order.contains(t) <==> (t == token
                || old_order.contains(t)) by {
                if order.contains(t) && t != token {
                    let m = choose|m: int| 0 <= m < order.len() && order[m] == t;
                    assert(old_order[m - 1] == t);
                }
                if old_order.contains(t) {
                    let m = choose|m: int| 0 <= m < old_order.len() && old_order[m] == t;
                    assert(order[m + 1] == t);
                }
                if t == token {
                    assert(order[0] == t);
                }
            }
            assert(cells[token as int].tag == obj);
            assert(self.objects() =~= old(self).objects().insert(token, obj));
        }
        token
    }

    /// Releases the object that `token` protects. The `NULL` token releases nothing.
    pub fn release_from_preserved_list(&mut self, token: usize)
        requires
            old(self).wf(),
            token == NIL || old(self).tokens().contains(token),
        ensures
            final(self).wf(),
            released(*old(self), *final(self), token),
    {
        if token == NIL {
            return;
        }
        let ghost old_order = self.order@;
        let ghost old_cells = self.cells@;
        let ghost k = old_order.index_of(token);
        assert(0 <= k < old_order.len() && old_order[k] == token);
        let cell = self.cells[token];
        let before = cell.car;
        let after = cell.cdr;
        let b = self.cells[before];
        self.cells.set(before, Cell { car: b.car, cdr: after, tag: b.tag });
        if after != NIL {
            let a = self.cells[after];
            self.cells.set(after, Cell { car: before, cdr: a.cdr, tag: a.tag });
        }
        self.order = Ghost(old_order.remove(k));
        proof {
            let order = self.order@;
            let cells = self.cells@;
            assert(before == ANCHOR || (k > 0 && before == old_order[k - 1]));
            assert(after == NIL || (k < old_order.len() - 1 && after == old_order[k + 1]));
            assert forall|i: int| 0 <= i < order.len() implies 2 <= #[trigger] order[i]
                < cells.len() by {
                if i >= k {
                    assert(order[i] == old_order[i + 1]);
                }
            }
            assert forall|i: int, j: int|
                0 <= i < order.len() && 0 <= j < order.len() && i != j implies order[i]
                != order[j] by {
                let oi = if i < k { i } else { i + 1 };
                let oj = if j < k { j } else { j + 1 };
                assert(order[i] == old_order[oi]);
                assert(order[j] == old_order[oj]);
            }
            assert forall|i: int| 0 <= i < order.len() implies (#[trigger] cells[order[i] as int]).car
                == (if i == 0 { ANCHOR } else { order[i - 1] }) by {
                let oi = if i < k { i } else { i + 1 };
                assert(order[i] == old_order[oi]);
                if i > 0 {
                    let op = if i - 1 < k { i - 1 } else { i };
                    assert(order[i - 1] == old_order[op]);
                }
                if oi != k + 1 {
                    assert(old_order[oi] != after || after == NIL);
                }
                if oi > 0 {
                    assert(old_order[oi] != old_order[oi - 1]);
                }
            }
            assert forall|i: int| 0 <= i < order.len() implies (#[trigger] cells[order[i] as int]).cdr
                == (if i == order.len() - 1 { NIL } else { order[i + 1] }) by {
                let oi = if i < k { i } else { i + 1 };
                assert(order[i] == old_order[oi]);
                if i + 1 < order.len() {
                    let on = if i + 1 < k { i + 1 } else { i + 2 };
                    assert(order[i + 1] == old_order[on]);
                }
                if oi + 1 < old_order.len() {
                    assert(old_order[oi] != old_order[oi + 1]);
                }
                if oi + 1 == k {
                    assert(before == old_order[oi]);
                }
            }
            assert forall|i: int| 0 <= i < order.len() implies (#[trigger] cells[order[i] as int]).tag
                != NIL by {
                let oi = if i < k { i } else { i + 1 };
                assert(order[i] == old_order[oi]);
            }
            assert forall|t: usize| #[trigger] order.contains(t) implies cells[t as int].tag
                == old_cells[t as int].tag && old_order.contains(t) by {
                let m = choose|m: int| 0 <= m < order.len() && order[m] == t;
                let om = if m < k { m } else { m + 1 };
                assert(order[m] == old_order[om]);
            }
            assert forall|t: usize| #[trigger] old_order.contains(t) && t != token implies order.contains(t) by {
                let m = choose|m: int| 0 <= m < old_order.len() && old_order[m] == t;
                if m < k {
                    assert(order[m] == t);
                } else {
                    assert(m != k);
                    assert(order[m - 1] == t);
                }
            }
            assert(!order.contains(token)) by {
                if order.contains(token) {
                    let m = choose|m: int| 0 <= m < order.len() && order[m] == token;
                    let om = if m < k { m } else { m + 1 };
                    assert(order[m] == old_order[om]);
                }
            }
            assert(self.objects() =~= old(self).objects().remove(token));
        }
    }
}

/// Releasing the token that protecting an object gave returns the list to the
/// objects and tokens it had before.
pub proof fn law_release_undoes_insert(
    l0: PreservedList,
    l1: PreservedList,
    l2: PreservedList,
    obj: usize,
    token: usize,
)
    requires
        inserted(l0, l1, obj, token),
        released(l1, l2, token),
    ensures
        l2.tokens() == l0.tokens(),
        l2.objects() == l0.objects(),
{
    if obj != NIL {
        let t1 = l1.tokens();
        assert(t1[0] == token);
        let k = t1.index_of(token);
        assert(0 <= k < t1.len() && t1[k] == token);
        if k != 0 {
            assert(t1[k] == l0.tokens()[k - 1]);
            assert(l0.tokens().contains(token));
        }
        assert(t1.remove(0) =~= l0.tokens());
        assert(l0.objects().insert(token, obj).remove(token) =~= l0.objects()) by {
            assert(!l0.objects().dom().contains(token));
        }
    }
}

/// Releasing one token keeps every other object protected, under its own token.
pub proof fn law_release_keeps_others(l1: PreservedList, l2: PreservedList, token: usize, other: usize)
    requires
        released(l1, l2, token),
        l1.objects().dom().contains(other),
        other != token,
    ensures
        l2.objects().dom().contains(other),
        l2.objects()[other] == l1.objects()[other],
{
}

/// Protecting an object keeps every object protected before, under its token.
pub proof fn law_insert_keeps_others(l0: PreservedList, l1: PreservedList, obj: usize, token: usize, other: usize)
    requires
        inserted(l0, l1, obj, token),
        l0.objects().dom().contains(other),
    ensures
        l1.objects().dom().contains(other),
        l1.objects()[other] == l0.objects()[other],
{
}

/// The handles reached by following `cdr` `n` times from the cell `from`.
pub open spec fn walk(cells: Seq<Cell>, from: usize, n: nat) -> Seq<usize>
    decreases n,
{
    if n == 0 {
        Seq::empty()
    } else {
        let next = cells[from as int].cdr;
        seq![next] + walk(cells, next, (n - 1) as nat)
    }
}

/// The walk from the cell before position `i` covers the tokens from `i` on.
proof fn lemma_walk(l: PreservedList, i: int)
    requires
        l.wf(),
        0 <= i <= l.tokens().len(),
    ensures
        walk(
            l.cell_seq(),
            if i == 0 { ANCHOR } else { l.tokens()[i - 1] },
            (l.tokens().len() - i) as nat,
        ) == l.tokens().subrange(i, l.tokens().len() as int),
    decreases l.tokens().len() - i,
{
    let t = l.tokens();
    if i < t.len() {
        lemma_walk(l, i + 1);
        if i > 0 {
            assert(l.cell_seq()[t[i - 1] as int].cdr == t[i]);
        }
        assert(t.subrange(i, t.len() as int) =~= seq![t[i]] + t.subrange(i + 1, t.len() as int));
    } else {
        assert(t.subrange(i, t.len() as int) =~= Seq::<usize>::empty());
    }
}

/// Following `cdr` from the anchor reaches exactly the tokens, most recently
/// protected first, and then `NIL`; each token's cell holds its object; and
/// for the anchor and each token whose `cdr` is a cell, the `car` of that cell
/// leads back (`CAR(CDR(n)) == n`).
pub proof fn law_list_links(l: PreservedList)
    requires
        l.wf(),
    ensures
        walk(l.cell_seq(), ANCHOR, l.tokens().len()) == l.tokens(),
        l.cell_seq()[(if l.tokens().len() == 0 { ANCHOR } else { l.tokens().last() }) as int].cdr
            == NIL,
        forall|i: int|
            0 <= i < l.tokens().len() ==> l.cell_seq()[#[trigger] l.tokens()[i] as int].tag
                == l.objects()[l.tokens()[i]],
        l.cell_seq()[ANCHOR as int].cdr != NIL ==> l.cell_seq()[l.cell_seq()[ANCHOR as int].cdr as int].car
            == ANCHOR,
        forall|i: int|
            0 <= i < l.tokens().len() && l.cell_seq()[#[trigger] l.tokens()[i] as int].cdr != NIL
                ==> l.cell_seq()[l.cell_seq()[l.tokens()[i] as int].cdr as int].car == l.tokens()[i],
{
    lemma_walk(l, 0);
    assert(l.tokens().subrange(0, l.tokens().len() as int) =~= l.tokens());
    let t = l.tokens();
    assert forall|i: int|
        0 <= i < t.len() && l.cell_seq()[#[trigger] t[i] as int].cdr != NIL
            implies l.cell_seq()[l.cell_seq()[t[i] as int].cdr as int].car == t[i] by {
        assert(i + 1 < t.len());
        assert(l.cell_seq()[t[i + 1] as int].car == t[i]);
    }
    assert forall|i: int| 0 <= i < t.len() implies l.cell_seq()[#[trigger] t[i] as int].tag
        == l.objects()[t[i]] by {
        assert(t.contains(t[i]));
    }
    if t.len() > 0 {
        assert(l.cell_seq()[t[0] as int].car == ANCHOR);
    }
}

/// A call on the list: `Insert` protected `obj` and gave `token`; `Release`
/// released `token`.
pub enum ProtectCall {
    Insert { obj: usize, token: usize },
    Release { token: usize },
}

/// `after` is `before` after the call.
pub open spec fn call_step(before: PreservedList, after: PreservedList, c: ProtectCall) -> bool {
    match c {
        ProtectCall::Insert { obj, token } => inserted(before, after, obj, token),
        ProtectCall::Release { token } => released(before, after, token),
    }
}

/// The token that an insert gave (`NIL` for a release).
pub open spec fn given_token(c: ProtectCall) -> usize {
    match c {
        ProtectCall::Insert { token, .. } => token,
        ProtectCall::Release { .. } => NIL,
    }
}

/// The object that an insert protected (`NIL` for a release).
pub open spec fn given_object(c: ProtectCall) -> usize {
    match c {
        ProtectCall::Insert { obj, .. } => obj,
        ProtectCall::Release { .. } => NIL,
    }
}

/// Whether the call releases `token`.
pub open spec fn releases(c: ProtectCall, token: usize) -> bool {
    match c {
        ProtectCall::Release { token: t } => t == token,
        _ => false,
    }
}

/// The call at `i` protected an object, and no later call released its token.
pub open spec fn still_protected(calls: Seq<ProtectCall>, i: int) -> bool {
    &&& 0 <= i < calls.len()
    &&& calls[i] is Insert
    &&& given_object(calls[i]) != NIL
    &&& given_token(calls[i]) != NIL
    &&& forall|j: int| i < j < calls.len() ==> !releases(#[trigger] calls[j], given_token(calls[i]))
}

/// The list after `calls`: `idx` gives, for each position of the tokens, the
/// insert that gave that token. The positions hold exactly the inserts still
/// protected, the newest first, each token holding its insert's object.
pub open spec fn history_matches(l: PreservedList, calls: Seq<ProtectCall>, idx: Seq<int>) -> bool {
    &&& idx.len() == l.tokens().len()
    &&& l.tokens().no_duplicates()
    &&& forall|p: int| 0 <= p < idx.len() ==> {
        &&& still_protected(calls, #[trigger] idx[p])
        &&& given_token(calls[idx[p]]) == l.tokens()[p]
        &&& l.objects()[l.tokens()[p]] == given_object(calls[idx[p]])
    }
    &&& forall|p: int, q: int| 0 <= p < q < idx.len() ==> #[trigger] idx[p] > #[trigger] idx[q]
    &&& forall|i: int| #[trigger] still_protected(calls, i) ==> exists|p: int| 0 <= p < idx.len() && idx[p] == i
}

/// A release names `NIL` or a token of the list.
pub open spec fn release_allowed(l: PreservedList, c: ProtectCall) -> bool {
    match c {
        ProtectCall::Release { token } => token == NIL || l.tokens().contains(token),
        _ => true,
    }
}

proof fn lemma_history_step(
    l0: PreservedList,
    l1: PreservedList,
    calls: Seq<ProtectCall>,
    c: ProtectCall,
    idx0: Seq<int>,
) -> (idx1: Seq<int>)
    requires
        history_matches(l0, calls, idx0),
        call_step(l0, l1, c),
        release_allowed(l0, c),
    ensures
        history_matches(l1, calls.push(c), idx1),
{
    let n = calls.len() as int;
    let calls2 = calls.push(c);
    let t0 = l0.tokens();
    assert forall|i: int| 0 <= i < n implies (#[trigger] still_protected(calls2, i) <==> (
    still_protected(calls, i) && !releases(c, given_token(calls[i])))) by {
        assert(calls2[i] == calls[i]);
        if still_protected(calls, i) && !releases(c, given_token(calls[i])) {
            assert forall|j: int| i < j < calls2.len() implies !releases(
                #[trigger] calls2[j],
                given_token(calls2[i]),
            ) by {
                if j < n {
                    assert(calls2[j] == calls[j]);
                }
            }
        }
        if still_protected(calls2, i) {
            assert(calls2[n] == c);
            assert forall|j: int| i < j < calls.len() implies !releases(
                #[trigger] calls[j],
                given_token(calls[i]),
            ) by {
                assert(calls2[j] == calls[j]);
            }
        }
    }
    match c {
        ProtectCall::Insert { obj, token } => {
            if obj == NIL {
                assert forall|p: int| 0 <= p < idx0.len() implies {
                    &&& still_protected(calls2, #[trigger] idx0[p])
                    &&& given_token(calls2[idx0[p]]) == l1.tokens()[p]
                    &&& l1.objects()[l1.tokens()[p]] == given_object(calls2[idx0[p]])
                } by {
                    assert(still_protected(calls, idx0[p]));
                    assert(calls2[idx0[p]] == calls[idx0[p]]);
                }
                assert forall|i: int| #[trigger] still_protected(calls2, i) implies exists|p: int|
                    0 <= p < idx0.len() && idx0[p] == i by {
                    assert(i != n);
                    assert(still_protected(calls, i));
                }
                idx0
            } else {
                let idx1 = seq![n] + idx0;
                let t1 = l1.tokens();
                assert(t1 == seq![token] + t0);
                assert(calls2[n] == c);
                assert(still_protected(calls2, n));
                assert forall|p: int| 0 <= p < idx1.len() implies {
                    &&& still_protected(calls2, #[trigger] idx1[p])
                    &&& given_token(calls2[idx1[p]]) == t1[p]
                    &&& l1.objects()[t1[p]] == given_object(calls2[idx1[p]])
                } by {
                    if p > 0 {
                        let i = idx0[p - 1];
                        assert(still_protected(calls, i));
                        assert(calls2[i] == calls[i]);
                        assert(t1[p] == t0[p - 1]);
                        assert(t0.contains(t0[p - 1]));
                        assert(t0[p - 1] != token);
                    }
                }
                assert forall|p: int, q: int| 0 <= p < q < idx1.len() implies #[trigger] idx1[p]
                    > #[trigger] idx1[q] by {
                    if p > 0 {
                        assert(idx1[p] == idx0[p - 1] && idx1[q] == idx0[q - 1]);
                    } else {
                        assert(still_protected(calls, idx0[q - 1]));
                    }
                }
                assert forall|i: int| #[trigger] still_protected(calls2, i) implies exists|p: int|
                    0 <= p < idx1.len() && idx1[p] == i by {
                    if i == n {
                        assert(idx1[0] == n);
                    } else {
                        assert(still_protected(calls, i));
                        let p = choose|p: int| 0 <= p < idx0.len() && idx0[p] == i;
                        assert(idx1[p + 1] == i);
                    }
                }
                assert(t1.no_duplicates()) by {
                    assert forall|a: int, b: int| 0 <= a < t1.len() && 0 <= b < t1.len() && a != b
                        implies t1[a] != t1[b] by {
                        if a > 0 && b > 0 {
                        } else if a == 0 {
                            assert(t0.contains(t1[b]));
                        } else {
                            assert(t0.contains(t1[a]));
                        }
                    }
                }
                idx1
            }
        },
        ProtectCall::Release { token } => {
            if token == NIL {
                assert forall|p: int| 0 <= p < idx0.len() implies {
                    &&& still_protected(calls2, #[trigger] idx0[p])
                    &&& given_token(calls2[idx0[p]]) == l1.tokens()[p]
                    &&& l1.objects()[l1.tokens()[p]] == given_object(calls2[idx0[p]])
                } by {
                    assert(still_protected(calls, idx0[p]));
                    assert(calls2[idx0[p]] == calls[idx0[p]]);
                }
                assert forall|i: int| #[trigger] still_protected(calls2, i) implies exists|p: int|
                    0 <= p < idx0.len() && idx0[p] == i by {
                    assert(i != n);
                    assert(still_protected(calls, i));
                }
                idx0
            } else {
                let k = t0.index_of(token);
                assert(0 <= k < t0.len() && t0[k] == token);
                let idx1 = idx0.remove(k);
                let t1 = l1.tokens();
                assert(t1 == t0.remove(k));
                assert forall|p: int| 0 <= p < idx1.len() implies {
                    &&& still_protected(calls2, #[trigger] idx1[p])
                    &&& given_token(calls2[idx1[p]]) == t1[p]
                    &&& l1.objects()[t1[p]] == given_object(calls2[idx1[p]])
                } by {
                    let op = if p < k { p } else { p + 1 };
                    assert(idx1[p] == idx0[op] && t1[p] == t0[op]);
                    assert(op != k);
                    assert(t0[op] != token);
                    assert(still_protected(calls, idx0[op]));
                    assert(calls2[idx0[op]] == calls[idx0[op]]);
                    assert(t0.contains(t0[op]));
                }
                assert forall|p: int, q: int| 0 <= p < q < idx1.len() implies #[trigger] idx1[p]
                    > #[trigger] idx1[q] by {
                    let op = if p < k { p } else { p + 1 };
                    let oq = if q < k { q } else { q + 1 };
                    assert(idx1[p] == idx0[op] && idx1[q] == idx0[oq]);
                }
                assert forall|i: int| #[trigger] still_protected(calls2, i) implies exists|p: int|
                    0 <= p < idx1.len() && idx1[p] == i by {
                    assert(i != n);
                    assert(still_protected(calls, i));
                    let p = choose|p: int| 0 <= p < idx0.len() && idx0[p] == i;
                    assert(calls2[i] == calls[i]);
                    assert(given_token(calls[i]) == t0[p]);
                    assert(p != k);
                    if p < k {
                        assert(idx1[p] == i);
                    } else {
                        assert(idx1[p - 1] == i);
                    }
                }
                assert(t1.no_duplicates()) by {
                    assert forall|a: int, b: int| 0 <= a < t1.len() && 0 <= b < t1.len() && a != b
                        implies t1[a] != t1[b] by {
                        let oa = if a < k { a } else { a + 1 };
                        let ob = if b < k { b } else { b + 1 };
                        assert(t1[a] == t0[oa] && t1[b] == t0[ob]);
                    }
                }
                idx1
            }
        },
    }
}

/// Each release names `NIL` or the token of an earlier insert that is still
/// protected before it.
pub open spec fn releases_allowed(calls: Seq<ProtectCall>) -> bool {
    forall|k: int| 0 <= k < calls.len() ==> match #[trigger] calls[k] {
        ProtectCall::Release { token } => token == NIL || exists|i: int|
            still_protected(calls.take(k), i) && given_token(calls[i]) == token,
        _ => true,
    }
}

proof fn lemma_history_prefix(states: Seq<PreservedList>, calls: Seq<ProtectCall>, n: int) -> (idx: Seq<int>)
    requires
        states.len() == calls.len() + 1,
        states[0].tokens().len() == 0,
        forall|k: int| 0 <= k < calls.len() ==> call_step(#[trigger] states[k], states[k + 1], calls[k]),
        releases_allowed(calls),
        0 <= n <= calls.len(),
    ensures
        history_matches(states[n], calls.take(n), idx),
    decreases n,
{
    if n == 0 {
        let idx = Seq::<int>::empty();
        assert(calls.take(0) =~= Seq::<ProtectCall>::empty());
        assert(states[0].tokens() =~= Seq::<usize>::empty());
        idx
    } else {
        let idx0 = lemma_history_prefix(states, calls, n - 1);
        let prefix = calls.take(n - 1);
        assert(calls.take(n) =~= prefix.push(calls[n - 1]));
        assert(call_step(states[n - 1], states[n], calls[n - 1]));
        assert(release_allowed(states[n - 1], calls[n - 1])) by {
            match calls[n - 1] {
                ProtectCall::Release { token } => {
                    if token != NIL {
                        let k = n - 1;
                        assert(match calls[k] {
                            ProtectCall::Release { token } => token == NIL || exists|i: int|
                                still_protected(calls.take(k), i) && given_token(calls[i]) == token,
                            _ => true,
                        });
                        let i = choose|i: int| still_protected(prefix, i) && given_token(calls[i]) == token;
                        let p = choose|p: int| 0 <= p < idx0.len() && idx0[p] == i;
                        assert(prefix[i] == calls[i]);
                        assert(states[n - 1].tokens()[p] == token);
                    }
                },
                _ => {},
            }
        }
        lemma_history_step(states[n - 1], states[n], prefix, calls[n - 1], idx0)
    }
}

/// The tokens that the inserts at `idx` gave, in that order.
pub open spec fn tokens_of(calls: Seq<ProtectCall>, idx: Seq<int>) -> Seq<usize> {
    Seq::new(idx.len(), |p: int| given_token(calls[idx[p]]))
}

/// Whatever sequence of protect and release calls a list went through from
/// its creation, its tokens are exactly those of the inserts that protected
/// an object and were not released since, the most recent first, and each
/// token holds the object given to its insert. On the cells: following `cdr`
/// from the anchor reaches exactly those tokens in that order and then `NULL`,
/// the cell of each holds (`TAG`) the object of its insert, and `CAR(CDR(n))
/// == n` for the anchor and each such cell whose `cdr` is not `NULL`.
/// Releasing `NULL` changes nothing, so it needs no insert.
pub proof fn law_protect_history(states: Seq<PreservedList>, calls: Seq<ProtectCall>)
    requires
        states.len() == calls.len() + 1,
        states[0].tokens().len() == 0,
        forall|k: int| 0 <= k < calls.len() ==> call_step(#[trigger] states[k], states[k + 1], calls[k]),
        releases_allowed(calls),
        states.last().wf(),
    ensures
        exists|idx: Seq<int>| {
            &&& #[trigger] history_matches(states.last(), calls, idx)
            &&& walk(states.last().cell_seq(), ANCHOR, idx.len()) == tokens_of(calls, idx)
            &&& states.last().cell_seq()[(if idx.len() == 0 {
                ANCHOR
            } else {
                given_token(calls[idx.last()])
            }) as int].cdr == NIL
            &&& forall|p: int| 0 <= p < idx.len() ==> states.last().cell_seq()[
                given_token(calls[#[trigger] idx[p]]) as int].tag == given_object(calls[idx[p]])
        },
        states.last().cell_seq()[ANCHOR as int].cdr != NIL ==> states.last().cell_seq()[
            states.last().cell_seq()[ANCHOR as int].cdr as int].car == ANCHOR,
        forall|i: int|
            0 <= i < states.last().tokens().len() && states.last().cell_seq()[
                #[trigger] states.last().tokens()[i] as int].cdr != NIL
                ==> states.last().cell_seq()[states.last().cell_seq()[states.last().tokens()[i] as int].cdr as int].car
                == states.last().tokens()[i],
{
    let idx = lemma_history_prefix(states, calls, calls.len() as int);
    assert(calls.take(calls.len() as int) =~= calls);
    let l = states.last();
    assert(l == states[calls.len() as int]);
    assert(history_matches(l, calls, idx));
    law_list_links(l);
    assert(tokens_of(calls, idx) =~= l.tokens());
    assert forall|p: int| 0 <= p < idx.len() implies l.cell_seq()[given_token(calls[#[trigger] idx[p]]) as int].tag
        == given_object(calls[idx[p]]) by {
        assert(l.tokens()[p] == given_token(calls[idx[p]]));
        assert(l.cell_seq()[l.tokens()[p] as int].tag == l.objects()[l.tokens()[p]]);
    }
    if idx.len() > 0 {
        assert(l.tokens().last() == given_token(calls[idx.last()]));
    }
}

} // verus!
