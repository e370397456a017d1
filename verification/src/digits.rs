//! The score display: one digit quad per decimal digit, laid out right
//! to left from an anchor, least significant digit first.

use vstd::prelude::*;

verus! {

use crate::cache::Cache;
use crate::geometry::Vec3;
use crate::instance::{InstanceController, UvRect};
use crate::numeric::div_euclid_i64;
use vstd::arithmetic::div_mod::{lemma_div_is_ordered, lemma_div_nonincreasing, lemma_fundamental_div_mod, lemma_mod_bound};
use vstd::arithmetic::power::{lemma_pow_positive, pow};

/// Largest digits anchor coordinate and digit width, in milli-pixels.
pub const DIGITS_LIMIT: i64 = 1000000000;

/// The decimal digits of `n`, least significant first; zero has the
/// single digit 0.
pub open spec fn spec_digits(n: nat) -> Seq<int>
    decreases n,
{
    if n < 10 {
        seq![(n % 10) as int]
    } else {
        seq![(n % 10) as int] + spec_digits(n / 10)
    }
}

/// A number below `10^k` has at most `k` digits.
proof fn lemma_spec_digits_len(n: nat, k: nat)
    requires
        k >= 1,
        n < pow(10, k),
    ensures
        1 <= spec_digits(n).len() <= k,
    decreases k,
{
    if n >= 10 {
        reveal_with_fuel(pow, 2);
        assert(pow(10, k) == 10 * pow(10, (k - 1) as nat));
        lemma_pow_positive(10, (k - 1) as nat);
        assert(k >= 2) by {
            reveal_with_fuel(pow, 2);
        }
        lemma_fundamental_div_mod(n as int, 10);
        lemma_mod_bound(n as int, 10);
        assert(n / 10 < pow(10, (k - 1) as nat));
        lemma_spec_digits_len(n / 10, (k - 1) as nat);
    }
}

/// Any 32-bit number has between one and ten digits.
pub proof fn lemma_spec_digits_len_u32(n: u32)
    ensures
        1 <= spec_digits(n as nat).len() <= 10,
{
    assert(pow(10, 10) == 10000000000) by {
        reveal_with_fuel(pow, 11);
    }
    lemma_spec_digits_len(n as nat, 10);
}

/// The digit quad at slot `i` (counted from the right): `width` wide,
/// five fourths of that high, anchored so the rightmost quad's right
/// edge sits at `x` and each further digit moves one width left, showing
/// the digit's tenth of the glyph strip.
pub open spec fn spec_digit_instance(x: int, y: int, width: int, digit: int, i: int)
    -> InstanceController {
    let height = (width * 125) / 100;
    InstanceController {
        scale: Vec3 { x: width as i64, y: height as i64, z: 1000i64 },
        rotation: 0i64,
        position: Vec3 {
            x: (x - width / 2 - i * width) as i64,
            y: (y - height / 2) as i64,
            z: 0i64,
        },
        uv: UvRect { x: (digit * 100) as i64, y: 0i64, w: 100i64, h: 125i64 },
    }
}

/// The fresh caches for the digit quads of `number`.
fn new(x: i64, y: i64, width: i64, number: u32) -> (r: Vec<Cache<InstanceController>>)
    requires
        -DIGITS_LIMIT <= x <= DIGITS_LIMIT,
        -DIGITS_LIMIT <= y <= DIGITS_LIMIT,
        0 <= width <= DIGITS_LIMIT,
    ensures
        r@.len() == spec_digits(number as nat).len(),
        forall|i: int|
            0 <= i < r@.len() ==> !(#[trigger] r@[i]).is_cached && r@[i].content
                == spec_digit_instance(
                x as int,
                y as int,
                width as int,
                spec_digits(number as nat)[i],
                i,
            ),
{
    let ghost all = spec_digits(number as nat);
    proof {
        lemma_spec_digits_len_u32(number);
    }
    let mut digits: Vec<u32> = Vec::new();
    if number > 0 {
        let mut n = number;
        while n != 0
            invariant
                n > 0 ==> all == digits@.map_values(|d: u32| d as int) + spec_digits(n as nat),
                n == 0 ==> all == digits@.map_values(|d: u32| d as int),
                n == 0 ==> digits@.len() >= 1,
                forall|j: int| 0 <= j < digits@.len() ==> #[trigger] digits@[j] < 10,
            decreases n,
        {
            let ghost pre = digits@;
            let ghost pren = n;
            digits.push(n % 10);
            n = n / 10;
            proof {
                assert(digits@.map_values(|d: u32| d as int) =~= pre.map_values(|d: u32| d as int)
                    + seq![(pren % 10) as int]);
                if pren >= 10 {
                    assert(spec_digits(pren as nat) == seq![(pren as nat % 10) as int]
                        + spec_digits(pren as nat / 10));
                    assert(all =~= digits@.map_values(|d: u32| d as int) + spec_digits(n as nat));
                } else {
                    assert(spec_digits(pren as nat) == seq![(pren as nat % 10) as int]);
                    assert(all =~= digits@.map_values(|d: u32| d as int));
                }
            }
        }
    } else {
        digits.push(0);
        proof {
            assert(digits@.map_values(|d: u32| d as int) =~= seq![0int]);
            assert(all == seq![0int]);
        }
    }
    proof {
        assert(all == digits@.map_values(|d: u32| d as int));
        assert(digits@.len() <= 10);
    }

    proof {
        lemma_div_is_ordered(0, width as int * 125, 100);
        lemma_div_nonincreasing(width as int * 125, 100);
    }
    let height = div_euclid_i64(width * 125, 100);
    let half_height = div_euclid_i64(height, 2);
    let half_width = div_euclid_i64(width, 2);
    let mut result: Vec<Cache<InstanceController>> = Vec::new();
    let mut cx = x - half_width;
    let mut i: usize = 0;
    while i < digits.len()
        invariant
            digits@.len() <= 10,
            0 <= i <= digits@.len(),
            all == digits@.map_values(|d: u32| d as int),
            forall|j: int| 0 <= j < digits@.len() ==> #[trigger] digits@[j] < 10,
            -DIGITS_LIMIT <= x <= DIGITS_LIMIT,
            0 <= width <= DIGITS_LIMIT,
            -DIGITS_LIMIT <= y <= DIGITS_LIMIT,
            height == (width as int * 125) / 100,
            0 <= height <= 125 * DIGITS_LIMIT,
            half_height == height as int / 2,
            half_width == width as int / 2,
            cx == x - width as int / 2 - i * width,
            result@.len() == i,
            forall|j: int|
                0 <= j < i ==> !(#[trigger] result@[j]).is_cached && result@[j].content
                    == spec_digit_instance(x as int, y as int, width as int, all[j], j),
        decreases digits@.len() - i,
    {
        let d = digits[i];
        result.push(
            Cache::new(
                InstanceController {
                    scale: Vec3 { x: width, y: height, z: 1000 },
                    rotation: 0,
                    position: Vec3 { x: cx, y: y - half_height, z: 0 },
                    uv: UvRect { x: (d as i64) * 100, y: 0, w: 100, h: 125 },
                },
            ),
        );
        proof {
            assert(0 <= i * width <= 10000000000 && (i + 1) * width == i * width + width)
                by (nonlinear_arith)
                requires
                    0 <= i <= 10,
                    0 <= width <= 1000000000,
            ;
        }
        cx = cx - width;
        i = i + 1;
    }
    result
}

/// The score digits UI entity: the anchor, the per-digit width and one
/// cached quad per digit of the current number.
pub struct Digits {
    pub instance_controllers: Vec<Cache<InstanceController>>,
    pub x: i64,
    pub y: i64,
    pub width: i64,
}

impl Digits {
    /// The anchor and width are in the range digit layout stays exact
    /// in, and the quads show the digits of some number.
    pub open spec fn wf(self) -> bool {
        &&& -DIGITS_LIMIT <= self.x <= DIGITS_LIMIT
        &&& -DIGITS_LIMIT <= self.y <= DIGITS_LIMIT
        &&& 0 <= self.width <= DIGITS_LIMIT
    }

    /// Whether the quads are exactly the fresh digit quads of `n`.
    pub open spec fn shows(self, n: u32) -> bool {
        &&& self.instance_controllers@.len() == spec_digits(n as nat).len()
        &&& forall|i: int|
            0 <= i < self.instance_controllers@.len() ==> (
            #[trigger] self.instance_controllers@[i]).content == spec_digit_instance(
                self.x as int,
                self.y as int,
                self.width as int,
                spec_digits(n as nat)[i],
                i,
            )
    }

    /// Digit quads for `number`, their rightmost right edge anchored at
    /// `x`, tops at `y`, each `width` wide.
    pub fn new(x: i64, y: i64, width: i64, number: u32) -> (r: Digits)
        requires
            -DIGITS_LIMIT <= x <= DIGITS_LIMIT,
            -DIGITS_LIMIT <= y <= DIGITS_LIMIT,
            0 <= width <= DIGITS_LIMIT,
        ensures
            r.x == x && r.y == y && r.width == width,
            r.wf(),
            r.shows(number),
            forall|i: int|
                0 <= i < r.instance_controllers@.len() ==> !(
                #[trigger] r.instance_controllers@[i]).is_cached,
    {
        Digits { instance_controllers: new(x, y, width, number), x, y, width }
    }

    /// The renderable state of every digit quad, each handed out only
    /// when the renderer has not seen it: `None` slots are unchanged.
    pub fn get_instance_controllers(&mut self) -> (r: Vec<Option<InstanceController>>)
        ensures
            final(self).x == old(self).x,
            final(self).y == old(self).y,
            final(self).width == old(self).width,
            final(self).instance_controllers@.len() == old(self).instance_controllers@.len(),
            r@.len() == old(self).instance_controllers@.len(),
            forall|i: int|
                0 <= i < r@.len() ==> (#[trigger] final(self).instance_controllers@[i]).content
                    == old(self).instance_controllers@[i].content && final(self).instance_controllers@[i].is_cached,
            forall|i: int|
                0 <= i < r@.len() ==> #[trigger] r@[i] == (if old(self).instance_controllers@[i].is_cached {
                    None
                } else {
                    Some(old(self).instance_controllers@[i].content)
                }),
    {
        let mut r: Vec<Option<InstanceController>> = Vec::new();
        let mut i: usize = 0;
        let n = self.instance_controllers.len();
        while i < n
            invariant
                n == old(self).instance_controllers@.len(),
                self.instance_controllers@.len() == n,
                0 <= i <= n,
                self.x == old(self).x && self.y == old(self).y && self.width == old(self).width,
                r@.len() == i,
                forall|j: int|
                    i <= j < n ==> #[trigger] self.instance_controllers@[j] == old(self).instance_controllers@[j],
                forall|j: int|
                    0 <= j < i ==> (#[trigger] self.instance_controllers@[j]).content == old(self).instance_controllers@[j].content
                        && self.instance_controllers@[j].is_cached,
                forall|j: int|
                    0 <= j < i ==> #[trigger] r@[j] == (if old(self).instance_controllers@[j].is_cached {
                        None
                    } else {
                        Some(old(self).instance_controllers@[j].content)
                    }),
            decreases n - i,
        {
            let c = &mut self.instance_controllers[i];
            let v = c.cache();
            r.push(v);
            i = i + 1;
        }
        r
    }

    /// Replaces the quads with fresh ones showing `number`.
    pub fn set_number(&mut self, number: u32)
        requires
            old(self).wf(),
        ensures
            final(self).x == old(self).x,
            final(self).y == old(self).y,
            final(self).width == old(self).width,
            final(self).wf(),
            final(self).shows(number),
            forall|i: int|
                0 <= i < final(self).instance_controllers@.len() ==> !(#[trigger] final(self).instance_controllers@[i]).is_cached,
    {
        self.instance_controllers = new(self.x, self.y, self.width, number);
    }
}

} // verus!
