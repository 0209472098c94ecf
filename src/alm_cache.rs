use vstd::prelude::*;

verus! {

/// Scratch memory and persistent state of the augmented Lagrangian / penalty
/// outer loop, generic over the scalar type `T`.
///
/// `xi` packs `[c, y_1, ..., y_n1]` and is present exactly when `n1 > 0`;
/// `y_plus` and `w_alm_aux` have length `n1` and are present exactly when
/// `n1 > 0`; `w_pm` has length `n2` and is present exactly when `n2 > 0`.
pub struct AlmCache<T> {
    /// Packed penalty parameter and Lagrange multipliers, `[c, y]`
    pub xi: Option<Vec<T>>,
    /// Candidate next multiplier
    pub y_plus: Option<Vec<T>>,
    /// Value of the ALM mapping `F1(u)`
    pub w_alm_aux: Option<Vec<T>>,
    /// Value of the penalty mapping `F2(u)`
    pub w_pm: Option<Vec<T>>,
    /// ALM infeasibility of the previous iteration
    pub delta_y_norm: T,
    /// ALM infeasibility of the current iteration
    pub delta_y_norm_plus: T,
    /// PM infeasibility of the previous iteration
    pub f2_norm: T,
    /// PM infeasibility of the current iteration
    pub f2_norm_plus: T,
    /// Tolerance of the inner (AKKT) problem
    pub akkt_tolerance: T,
    /// Number of completed outer iterations
    pub iteration: usize,
    /// Number of ALM-type constraints
    pub n1: usize,
    /// Number of PM-type constraints
    pub n2: usize,
    /// The zero of the scalar type
    pub zero: T,
}

/// A buffer that holds `len` entries when `present` holds and is absent otherwise.
pub open spec fn buffer_shape<T>(b: Option<Vec<T>>, present: bool, len: nat) -> bool {
    if present {
        b is Some && b->0@.len() == len
    } else {
        b is None
    }
}

/// The length of an optional buffer (zero when absent).
pub open spec fn buffer_len<T>(b: Option<Vec<T>>) -> nat {
    match b {
        Some(v) => v@.len(),
        None => 0,
    }
}

/// `n` copies of `x`.
pub open spec fn filled<T>(x: T, n: nat) -> Seq<T> {
    Seq::new(n, |i: int| x)
}

fn filled_vec<T: Copy>(x: T, n: usize) -> (r: Vec<T>)
    ensures
        r@ == filled(x, n as nat),
{
    let mut v: Vec<T> = Vec::with_capacity(n);
    let mut i: usize = 0;
    while i < n
        invariant
            i <= n,
            v@ == filled(x, i as nat),
        decreases n - i,
    {
        v.push(x);
        i = i + 1;
        assert(v@ =~= filled(x, i as nat));
    }
    v
}

impl<T: Copy> AlmCache<T> {
    /// Buffer lengths agree with the declared dimensions.
    pub open spec fn wf(&self) -> bool {
        &&& buffer_shape(self.xi, self.n1 > 0, (self.n1 + 1) as nat)
        &&& buffer_shape(self.y_plus, self.n1 > 0, self.n1 as nat)
        &&& buffer_shape(self.w_alm_aux, self.n1 > 0, self.n1 as nat)
        &&& buffer_shape(self.w_pm, self.n2 > 0, self.n2 as nat)
    }

    /// The lengths of the four buffers, in the order `xi`, `y_plus`, `w_alm_aux`, `w_pm`.
    pub open spec fn buffer_lengths(&self) -> (nat, nat, nat, nat) {
        (buffer_len(self.xi), buffer_len(self.y_plus), buffer_len(self.w_alm_aux), buffer_len(self.w_pm))
    }

    /// Every field but the four buffers.
    pub open spec fn scalars(&self) -> (T, T, T, T, T, usize, usize, usize, T) {
        (
            self.delta_y_norm,
            self.delta_y_norm_plus,
            self.f2_norm,
            self.f2_norm_plus,
            self.akkt_tolerance,
            self.iteration,
            self.n1,
            self.n2,
            self.zero,
        )
    }

    /// The buffers other than `xi`.
    pub open spec fn work_buffers(&self) -> (Option<Vec<T>>, Option<Vec<T>>, Option<Vec<T>>) {
        (self.y_plus, self.w_alm_aux, self.w_pm)
    }

    /// The cache once the infeasibilities `alm` and `pm` are recorded as the
    /// current ones; an absent kind of constraint has infeasibility zero.
    pub open spec fn with_infeasibilities(&self, alm: T, pm: T) -> Self {
        AlmCache {
            delta_y_norm_plus: if self.n1 > 0 { alm } else { self.zero },
            f2_norm_plus: if self.n2 > 0 { pm } else { self.zero },
            ..*self
        }
    }

    /// The penalty parameter `c = xi[0]` (meaningful when `n1 > 0`).
    pub open spec fn penalty_spec(&self) -> T {
        self.xi->0@[0]
    }

    /// The Lagrange multipliers `y = xi[1..]` (meaningful when `n1 > 0`).
    pub open spec fn multipliers_spec(&self) -> Seq<T> {
        self.xi->0@.subrange(1, self.n1 + 1)
    }

    /// Allocates every buffer once: `xi = [c0, 0, ..., 0]`, the other buffers
    /// zero, all infeasibilities zero, iteration count zero.
    pub fn new(n1: usize, n2: usize, zero: T, c0: T, akkt_tolerance: T) -> (r: Self)
        requires
            n1 < usize::MAX,
        ensures
            r.wf(),
            r.n1 == n1,
            r.n2 == n2,
            r.zero == zero,
            r.iteration == 0,
            r.delta_y_norm == zero,
            r.delta_y_norm_plus == zero,
            r.f2_norm == zero,
            r.f2_norm_plus == zero,
            r.akkt_tolerance == akkt_tolerance,
            n1 > 0 ==> r.xi->0@ == seq![c0] + filled(zero, n1 as nat),
            n1 > 0 ==> r.y_plus->0@ == filled(zero, n1 as nat),
            n1 > 0 ==> r.w_alm_aux->0@ == filled(zero, n1 as nat),
            n2 > 0 ==> r.w_pm->0@ == filled(zero, n2 as nat),
    {
        let (xi, y_plus, w_alm_aux) = if n1 > 0 {
            let mut xi: Vec<T> = Vec::with_capacity(n1 + 1);
            xi.push(c0);
            let mut i: usize = 0;
            while i < n1
                invariant
                    i <= n1,
                    xi@ == seq![c0] + filled(zero, i as nat),
                decreases n1 - i,
            {
                xi.push(zero);
                i = i + 1;
                assert(xi@ =~= seq![c0] + filled(zero, i as nat));
            }
            (Some(xi), Some(filled_vec(zero, n1)), Some(filled_vec(zero, n1)))
        } else {
            (None, None, None)
        };
        let w_pm = if n2 > 0 {
            Some(filled_vec(zero, n2))
        } else {
            None
        };
        AlmCache {
            xi,
            y_plus,
            w_alm_aux,
            w_pm,
            delta_y_norm: zero,
            delta_y_norm_plus: zero,
            f2_norm: zero,
            f2_norm_plus: zero,
            akkt_tolerance,
            iteration: 0,
            n1,
            n2,
            zero,
        }
    }

    /// Sets the penalty parameter `xi[0]`; nothing changes when `n1 == 0`.
    pub fn set_penalty(&mut self, c: T)
        requires
            old(self).wf(),
        ensures
            final(self).wf(),
            final(self).buffer_lengths() == old(self).buffer_lengths(),
            final(self).scalars() == old(self).scalars(),
            final(self).work_buffers() == old(self).work_buffers(),
            old(self).n1 > 0 ==> final(self).xi->0@ == old(self).xi->0@.update(0, c),
            old(self).n1 == 0 ==> final(self).xi == old(self).xi,
    {
        if let Some(xi) = &mut self.xi {
            xi.set(0, c);
        }
    }

    /// Copies `y` into the multiplier part `xi[1..]`, keeping `xi[0]`.
    pub fn set_multipliers(&mut self, y: &[T])
        requires
            old(self).wf(),
            y@.len() == old(self).n1,
        ensures
            final(self).wf(),
            final(self).buffer_lengths() == old(self).buffer_lengths(),
            final(self).scalars() == old(self).scalars(),
            final(self).work_buffers() == old(self).work_buffers(),
            old(self).n1 > 0 ==> final(self).xi->0@ == seq![old(self).xi->0@[0]] + y@,
            old(self).n1 == 0 ==> final(self).xi == old(self).xi,
    {
        let ghost c0 = self.xi->0@[0];
        if let Some(xi) = &mut self.xi {
            let mut i: usize = 0;
            while i < y.len()
                invariant
                    0 < xi@.len(),
                    xi@.len() == y@.len() + 1,
                    xi@[0] == c0,
                    i <= y@.len(),
                    forall|j: int| 0 <= j < i ==> xi@[j + 1] == y@[j],
                decreases y@.len() - i,
            {
                xi.set(i + 1, y[i]);
                i = i + 1;
            }
            assert(xi@ =~= seq![c0] + y@);
        }
    }

    /// Records the infeasibilities measured in the current iteration; an
    /// absent kind of constraint has infeasibility zero.
    pub fn set_infeasibilities(&mut self, alm: T, pm: T)
        ensures
            *final(self) == old(self).with_infeasibilities(alm, pm),
    {
        self.delta_y_norm_plus = if self.n1 > 0 { alm } else { self.zero };
        self.f2_norm_plus = if self.n2 > 0 { pm } else { self.zero };
    }

    /// Sets the tolerance of the inner problem.
    pub fn set_akkt_tolerance(&mut self, tolerance: T)
        ensures
            *final(self) == (AlmCache { akkt_tolerance: tolerance, ..*old(self) }),
    {
        self.akkt_tolerance = tolerance;
    }

    /// Closes an outer iteration: counts it, and the current infeasibilities
    /// become the previous ones.
    pub fn final_cache_update(&mut self)
        requires
            old(self).iteration < usize::MAX,
        ensures
            *final(self) == (AlmCache {
                iteration: (old(self).iteration + 1) as usize,
                delta_y_norm: old(self).delta_y_norm_plus,
                f2_norm: old(self).f2_norm_plus,
                ..*old(self)
            }),
    {
        self.iteration = self.iteration + 1;
        self.delta_y_norm = self.delta_y_norm_plus;
        self.f2_norm = self.f2_norm_plus;
    }
}

} // verus!
