//! Angles and the sine table.
//!
//! An angle is an integer count of tenths of a degree. Angle 0 points along
//! +X and angles grow towards +Y. Sines and cosines are read from a table of
//! one quarter wave, scaled by [`TRIG_ONE`].

use crate::fixed::floor_mod;
use crate::fixed::TRIG_ONE;
use vstd::prelude::*;

verus! {

/// Angle steps in a full turn.
pub const FULL_TURN: i64 = 3600;

/// Angle steps in half a turn.
pub const HALF_TURN: i64 = 1800;

/// Angle steps in a quarter of a turn.
pub const QUARTER_TURN: i64 = 900;

/// Angle steps in three quarters of a turn.
pub const THREE_QUARTER_TURN: i64 = 2700;

/// Number of entries in the quarter-wave table: one for each step from 0 to
/// a quarter turn, both ends included.
pub const QUARTER_ENTRIES: usize = 901;

/// The angle `a` brought into `0..FULL_TURN`.
pub open spec fn wrapped(a: int) -> int {
    a % (FULL_TURN as int)
}

/// Whether `q` can serve as a quarter wave of the sine: it starts at zero,
/// ends at one, and is positive and at most one in between.
pub open spec fn valid_quarter(q: Seq<i32>) -> bool {
    &&& q.len() == QUARTER_ENTRIES
    &&& q[0] == 0
    &&& q[QUARTER_TURN as int] == TRIG_ONE
    &&& forall|i: int| 0 < i < QUARTER_TURN ==> 0 < #[trigger] q[i] <= TRIG_ONE
}

/// Sine of the angle `a` read from the quarter wave `q`.
pub open spec fn quarter_sin(q: Seq<i32>, a: int) -> int {
    let w = wrapped(a);
    if w <= QUARTER_TURN {
        q[w] as int
    } else if w <= HALF_TURN {
        q[HALF_TURN - w] as int
    } else if w <= THREE_QUARTER_TURN {
        -(q[w - HALF_TURN] as int)
    } else {
        -(q[FULL_TURN - w] as int)
    }
}

/// Brings an angle into `0..FULL_TURN`.
pub fn wrap_angle(a: i64) -> (r: i64)
    ensures
        r == wrapped(a as int),
        0 <= r < FULL_TURN,
{
    floor_mod(a, FULL_TURN)
}

/// The angle `a` turned by `delta` steps, brought into `0..FULL_TURN`.
pub fn turned(a: i64, delta: i64) -> (r: i64)
    ensures
        r == wrapped(a + delta),
        0 <= r < FULL_TURN,
{
    let wa: i64 = floor_mod(a, FULL_TURN);
    let wd: i64 = floor_mod(delta, FULL_TURN);
    floor_mod(wa + wd, FULL_TURN)
}

/// Sines of the angles from 0 to a quarter turn, from which all sines and
/// cosines are derived by symmetry.
#[derive(Debug)]
pub struct TrigTable {
    pub quarter: Vec<i32>,
}

impl TrigTable {
    /// The table holds a valid quarter wave.
    pub open spec fn wf(&self) -> bool {
        valid_quarter(self.quarter@)
    }

    /// Sine of the angle `a`, scaled by `TRIG_ONE`.
    pub open spec fn spec_sin(&self, a: int) -> int {
        quarter_sin(self.quarter@, a)
    }

    /// Cosine of the angle `a`, scaled by `TRIG_ONE`.
    pub open spec fn spec_cos(&self, a: int) -> int {
        quarter_sin(self.quarter@, a + QUARTER_TURN)
    }

    /// Takes a quarter wave of sines, one entry for each tenth of a degree
    /// from 0 to 90 degrees. The table is accepted exactly when it is a valid
    /// quarter wave.
    pub fn new(quarter: Vec<i32>) -> (r: Option<TrigTable>)
        ensures
            r is Some <==> valid_quarter(quarter@),
            r matches Some(t) ==> t.quarter@ == quarter@ && t.wf(),
    {
        if quarter.len() != QUARTER_ENTRIES {
            return None;
        }
        if quarter[0] != 0 || quarter[QUARTER_ENTRIES - 1] as i64 != TRIG_ONE {
            return None;
        }
        let mut i: usize = 1;
        while i < QUARTER_ENTRIES - 1
            invariant
                1 <= i <= QUARTER_ENTRIES - 1,
                quarter@.len() == QUARTER_ENTRIES,
                forall|j: int| 0 < j < i ==> 0 < #[trigger] quarter@[j] <= TRIG_ONE,
            decreases QUARTER_ENTRIES - 1 - i,
        {
            if quarter[i] <= 0 || quarter[i] as i64 > TRIG_ONE {
                return None;
            }
            i = i + 1;
        }
        Some(TrigTable { quarter })
    }

    /// Sine of `angle`, scaled by `TRIG_ONE`.
    pub fn sin(&self, angle: i64) -> (s: i64)
        requires
            self.wf(),
        ensures
            s == self.spec_sin(angle as int),
            -TRIG_ONE <= s <= TRIG_ONE,
    {
        let w: i64 = floor_mod(angle, FULL_TURN);
        if w <= QUARTER_TURN {
            self.quarter[w as usize] as i64
        } else if w <= HALF_TURN {
            self.quarter[(HALF_TURN - w) as usize] as i64
        } else if w <= THREE_QUARTER_TURN {
            -(self.quarter[(w - HALF_TURN) as usize] as i64)
        } else {
            -(self.quarter[(FULL_TURN - w) as usize] as i64)
        }
    }

    /// Cosine of `angle`, scaled by `TRIG_ONE`.
    pub fn cos(&self, angle: i64) -> (c: i64)
        requires
            self.wf(),
        ensures
            c == self.spec_cos(angle as int),
            -TRIG_ONE <= c <= TRIG_ONE,
    {
        let w: i64 = floor_mod(angle, FULL_TURN);
        self.sin(w + QUARTER_TURN)
    }

    /// The sine is positive in the half turn towards +Y, negative in the
    /// other half, and zero exactly along the X axis.
    pub proof fn lemma_sin_sign(&self, a: int)
        requires
            self.wf(),
        ensures
            self.spec_sin(a) > 0 <==> 0 < wrapped(a) < HALF_TURN,
            self.spec_sin(a) == 0 <==> (wrapped(a) == 0 || wrapped(a) == HALF_TURN),
            self.spec_sin(a) < 0 <==> HALF_TURN < wrapped(a),
    {
    }

    /// The cosine is positive in the half turn towards +X, negative in the
    /// other half, and zero exactly along the Y axis.
    pub proof fn lemma_cos_sign(&self, a: int)
        requires
            self.wf(),
        ensures
            self.spec_cos(a) > 0 <==> (wrapped(a) < QUARTER_TURN || wrapped(a)
                > THREE_QUARTER_TURN),
            self.spec_cos(a) == 0 <==> (wrapped(a) == QUARTER_TURN || wrapped(a)
                == THREE_QUARTER_TURN),
            self.spec_cos(a) < 0 <==> QUARTER_TURN < wrapped(a) < THREE_QUARTER_TURN,
    {
    }

    /// The cosine of a whole number of turns is exactly one.
    pub proof fn lemma_cos_zero(&self, a: int)
        requires
            self.wf(),
            wrapped(a) == 0,
        ensures
            self.spec_cos(a) == TRIG_ONE,
    {
    }
}

} // verus!
