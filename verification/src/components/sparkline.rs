//! A trend line: the last samples of a value, drawn one cell each.

use vstd::prelude::*;
use vstd::string::*;
use crate::components::wide::{at_most, pow, power, value_of};

verus! {

/// A rolling window of samples and how to draw it: each sample as a bar
/// whose height is its share of the largest sample, on a linear or on a
/// logarithmic scale.
#[derive(Debug)]
pub struct Sparkline {
    pub enabled: bool,
    pub length: usize,
    pub data: Vec<u64>,
    pub logarithmic: bool,
}

/// `n` blanks.
pub open spec fn blanks(n: nat) -> Seq<char> {
    Seq::new(n, |i: int| ' ')
}

/// The largest sample of a window; 1 for an empty window.
pub open spec fn window_max(data: Seq<u64>) -> u64
    decreases data.len(),
{
    if data.len() == 0 {
        1
    } else if data.len() == 1 {
        data[0]
    } else if window_max(data.drop_last()) >= data.last() {
        window_max(data.drop_last())
    } else {
        data.last()
    }
}

/// The bar of height `level`, from a blank (0) to a full block (8).
pub open spec fn bar(level: int) -> char {
    if level <= 0 {
        ' '
    } else if level == 1 {
        '\u{2581}'
    } else if level == 2 {
        '\u{2582}'
    } else if level == 3 {
        '\u{2583}'
    } else if level == 4 {
        '\u{2584}'
    } else if level == 5 {
        '\u{2585}'
    } else if level == 6 {
        '\u{2586}'
    } else if level == 7 {
        '\u{2587}'
    } else {
        '\u{2588}'
    }
}

/// The height of a sample on the linear scale: its eighths of the largest
/// sample, rounded down.
pub open spec fn linear_level(value: u64, max: u64) -> int
    recommends
        0 < max,
{
    (value * 8) / (max as int)
}

/// The largest of the numbers from `k` down to 0 such that `max` to its
/// power is at most `value` to the power of eight.
pub open spec fn log_steps(value: u64, max: u64, k: nat) -> nat
    decreases k,
{
    if k == 0 {
        0
    } else if pow(max as nat, k) <= pow(value as nat, 8) {
        k
    } else {
        log_steps(value, max, (k - 1) as nat)
    }
}

/// The height of a sample on the logarithmic scale: eight times its
/// logarithm to the base of the largest sample, rounded down. A window
/// whose largest sample is 1 has no such base; its samples have no height.
pub open spec fn log_level(value: u64, max: u64) -> int {
    if max <= 1 {
        0
    } else {
        log_steps(value, max, 8) as int
    }
}

/// The cell that a sample is drawn as.
pub open spec fn cell(value: u64, max: u64, logarithmic: bool) -> char {
    if value == 0 {
        ' '
    } else if logarithmic {
        bar(log_level(value, max))
    } else {
        bar(linear_level(value, max))
    }
}

/// The height of a sample on the logarithmic scale.
pub fn log_level_of(value: u64, max: u64) -> (r: usize)
    ensures
        r == log_level(value, max),
        r <= 8,
{
    if max <= 1 {
        return 0;
    }
    let target = power(value, 8, 8);
    let mut k: usize = 8;
    while k > 0
        invariant
            k <= 8,
            max > 1,
            target.len() == 9,
            value_of(target@) == pow(value as nat, 8),
            log_steps(value, max, 8) == log_steps(value, max, k as nat),
        decreases k,
    {
        let candidate = power(max, k, 8);
        if at_most(&candidate, &target) {
            return k;
        }
        k = k - 1;
    }
    0
}

/// No sample of a window is larger than the window's largest.
pub proof fn lemma_window_max_bounds(data: Seq<u64>, i: int)
    requires
        0 <= i < data.len(),
    ensures
        data[i] <= window_max(data),
    decreases data.len(),
{
    if data.len() > 1 && i < data.len() - 1 {
        lemma_window_max_bounds(data.drop_last(), i);
    }
}

impl Sparkline {
    /// The window has as many samples as the sparkline is long.
    pub open spec fn wf(self) -> bool {
        self.data@.len() == self.length
    }

    /// Whether `next` is this sparkline after the sample `value` was taken
    /// in: the settings stay; where the sparkline is switched on and has
    /// cells, the oldest sample has left and `value` is the newest.
    pub open spec fn steps_to(self, next: Sparkline, value: u64) -> bool {
        &&& next.enabled == self.enabled
        &&& next.length == self.length
        &&& next.logarithmic == self.logarithmic
        &&& next.data@ == if self.enabled && self.data@.len() > 0 {
            self.data@.drop_first().push(value)
        } else {
            self.data@
        }
    }

    /// What the sparkline draws: nothing where it is switched off, blanks
    /// where every sample is zero, else one cell for each sample.
    pub open spec fn spec_render(self) -> Seq<char> {
        if !self.enabled {
            Seq::empty()
        } else if window_max(self.data@) == 0 {
            blanks(self.length as nat)
        } else {
            Seq::new(self.data@.len(), |i: int| cell(self.data@[i], window_max(self.data@), self.logarithmic))
        }
    }

    /// What the sparkline takes up: its drawing where it is switched on,
    /// blanks of its length where it is not.
    pub open spec fn spec_render_with_spaces(self) -> Seq<char> {
        if self.enabled {
            self.spec_render()
        } else {
            blanks(self.length as nat)
        }
    }

    /// A sparkline of `length` samples, all zero.
    pub fn new(enabled: bool, length: usize, logarithmic: bool) -> (s: Self)
        ensures
            s.enabled == enabled,
            s.length == length,
            s.logarithmic == logarithmic,
            s.data@ == Seq::new(length as nat, |i: int| 0u64),
            s.wf(),
    {
        let mut data: Vec<u64> = Vec::new();
        let mut i: usize = 0;
        while i < length
            invariant
                i <= length,
                data@ == Seq::new(i as nat, |k: int| 0u64),
            decreases length - i,
        {
            data.push(0);
            i = i + 1;
            assert(data@ =~= Seq::new(i as nat, |k: int| 0u64));
        }
        Sparkline { enabled, length, data, logarithmic }
    }

    /// Takes a sample in: the oldest one leaves, `value` becomes the newest.
    /// A sparkline that is switched off, or has no cells, keeps its window.
    pub fn update(&mut self, value: u64)
        ensures
            old(self).steps_to(*final(self), value),
            old(self).wf() ==> final(self).wf(),
    {
        if self.enabled && self.data.len() > 0 {
            self.data.remove(0);
            self.data.push(value);
            assert(self.data@ =~= old(self).data@.drop_first().push(value));
        }
    }

    /// The largest sample of the window; 1 for an empty window.
    pub fn max_value(&self) -> (r: u64)
        ensures
            r == window_max(self.data@),
    {
        if self.data.len() == 0 {
            return 1;
        }
        let mut max: u64 = self.data[0];
        let mut i: usize = 1;
        assert(self.data@.take(1).drop_last() =~= Seq::<u64>::empty());
        while i < self.data.len()
            invariant
                1 <= i <= self.data.len(),
                max == window_max(self.data@.take(i as int)),
            decreases self.data.len() - i,
        {
            assert(self.data@.take(i + 1).drop_last() =~= self.data@.take(i as int));
            if self.data[i] > max {
                max = self.data[i];
            }
            i = i + 1;
        }
        assert(self.data@.take(i as int) =~= self.data@);
        max
    }

    /// Draws the sparkline.
    pub fn render(&self) -> (r: String)
        ensures
            r@ == self.spec_render(),
    {
        if !self.enabled {
            return String::new();
        }
        let max = self.max_value();
        if max == 0 {
            return spaces(self.length);
        }
        let mut result = String::new();
        let mut i: usize = 0;
        while i < self.data.len()
            invariant
                i <= self.data.len(),
                max == window_max(self.data@),
                max > 0,
                result@ == Seq::new(i as nat, |k: int| cell(self.data@[k], max, self.logarithmic)),
            decreases self.data.len() - i,
        {
            let value = self.data[i];
            let ghost before = result@;
            if value == 0 {
                proof {
                    reveal_strlit(" ");
                }
                result.append(" ");
            } else if self.logarithmic {
                result.append(bar_str(log_level_of(value, max)));
            } else {
                proof {
                    lemma_window_max_bounds(self.data@, i as int);
                    assert((value as int * 8) / (max as int) <= 8) by (nonlinear_arith)
                        requires
                            0 < value <= max,
                    ;
                }
                let level = ((value as u128 * 8) / (max as u128)) as usize;
                result.append(bar_str(level));
            }
            i = i + 1;
            assert(result@ =~= Seq::new(i as nat, |k: int| cell(self.data@[k], max, self.logarithmic)));
        }
        result
    }

    /// Draws the sparkline, or blanks of its length where it is switched off.
    pub fn render_with_spaces(&self) -> (r: String)
        ensures
            r@ == self.spec_render_with_spaces(),
    {
        if self.enabled {
            self.render()
        } else {
            spaces(self.length)
        }
    }
}

/// A text of `n` blanks.
pub fn spaces(n: usize) -> (r: String)
    ensures
        r@ == blanks(n as nat),
{
    let mut result = String::new();
    let mut i: usize = 0;
    assert(result@ =~= blanks(0));
    while i < n
        invariant
            i <= n,
            result@ == blanks(i as nat),
        decreases n - i,
    {
        proof {
            reveal_strlit(" ");
        }
        result.append(" ");
        i = i + 1;
        assert(result@ =~= blanks(i as nat));
    }
    result
}

fn bar_str(level: usize) -> (r: &'static str)
    ensures
        r@ == seq![bar(level as int)],
{
    proof {
        reveal_strlit(" ");
        reveal_strlit("\u{2581}");
        reveal_strlit("\u{2582}");
        reveal_strlit("\u{2583}");
        reveal_strlit("\u{2584}");
        reveal_strlit("\u{2585}");
        reveal_strlit("\u{2586}");
        reveal_strlit("\u{2587}");
        reveal_strlit("\u{2588}");
    }
    let r = if level == 0 {
        " "
    } else if level == 1 {
        "\u{2581}"
    } else if level == 2 {
        "\u{2582}"
    } else if level == 3 {
        "\u{2583}"
    } else if level == 4 {
        "\u{2584}"
    } else if level == 5 {
        "\u{2585}"
    } else if level == 6 {
        "\u{2586}"
    } else if level == 7 {
        "\u{2587}"
    } else {
        "\u{2588}"
    };
    assert(r@ =~= seq![bar(level as int)]);
    r
}

} // verus!
