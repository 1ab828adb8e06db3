use crate::data::cpu::CpuSnapshot;
use crate::utils::{fast_int_sqrt, is_int_sqrt};
use vstd::prelude::*;

verus! {

/// Whether a grid of `rows` by `cols` is the one the cores are laid out in:
/// up to three cores stand in one column; more stand in as many rows as the
/// square root of their number, rounded down, and in as few columns as then
/// hold them all.
pub open spec fn is_core_grid(cores: int, rows: int, cols: int) -> bool {
    if cores <= 3 {
        rows == cores && cols == 1
    } else {
        &&& is_int_sqrt(cores, rows)
        &&& (cols - 1) * rows < cores <= cols * rows
    }
}

/// How warm a core is, by the thresholds at which its temperature changes
/// colour.
#[derive(Clone, Copy, Debug, PartialEq, Eq)]
pub enum TemperatureLevel {
    Unknown,
    Normal,
    Warm,
    Hot,
    Critical,
}

/// The level of a temperature given in thousandths of a degree Celsius: zero
/// stands for a core without a sensor; above ninety degrees is critical,
/// above eighty hot, above seventy warm.
pub open spec fn level_of(temp: u32) -> TemperatureLevel {
    if temp == 0 {
        TemperatureLevel::Unknown
    } else if temp > 90_000 {
        TemperatureLevel::Critical
    } else if temp > 80_000 {
        TemperatureLevel::Hot
    } else if temp > 70_000 {
        TemperatureLevel::Warm
    } else {
        TemperatureLevel::Normal
    }
}

/// The level of a temperature given in thousandths of a degree Celsius.
pub fn temperature_level(temp: u32) -> (level: TemperatureLevel)
    ensures
        level == level_of(temp),
{
    if temp == 0 {
        TemperatureLevel::Unknown
    } else if temp > 90_000 {
        TemperatureLevel::Critical
    } else if temp > 80_000 {
        TemperatureLevel::Hot
    } else if temp > 70_000 {
        TemperatureLevel::Warm
    } else {
        TemperatureLevel::Normal
    }
}

/// The width of the column `i` where `total` cells are dealt out to `cols`
/// columns as evenly as can be, the columns to the left getting the cells
/// that are left over.
pub open spec fn column_width(total: int, cols: int, i: int) -> int {
    total / cols + if i < total % cols {
        1int
    } else {
        0int
    }
}

/// The widths of `cols` columns that share `total_width` cells.
pub fn column_widths(total_width: u16, cols: u16) -> (widths: Vec<u16>)
    requires
        cols > 0,
    ensures
        widths@.len() == cols,
        forall|i: int|
            0 <= i < cols ==> #[trigger] widths@[i] == column_width(
                total_width as int,
                cols as int,
                i,
            ),
{
    let base: u16 = total_width / cols;
    let left_over: u16 = total_width % cols;
    let mut widths: Vec<u16> = Vec::new();
    let mut i: u16 = 0;
    while i < cols
        invariant
            i <= cols,
            cols > 0,
            base == total_width / cols,
            left_over == total_width % cols,
            widths@.len() == i,
            forall|j: int|
                0 <= j < i ==> #[trigger] widths@[j] == column_width(
                    total_width as int,
                    cols as int,
                    j,
                ),
        decreases cols - i,
    {
        assert(base + 1 <= u16::MAX || left_over == 0) by (nonlinear_arith)
            requires
                cols > 0,
                base == total_width / cols,
                left_over == total_width % cols,
                total_width <= u16::MAX,
        ;
        let width: u16 = if i < left_over {
            base + 1
        } else {
            base
        };
        widths.push(width);
        i += 1;
    }
    widths
}

/// The widget that shows the cores' load.
#[derive(Clone, Copy, Debug, PartialEq, Eq)]
pub struct CpuWidget {}

impl CpuWidget {
    pub fn new() -> CpuWidget {
        CpuWidget {  }
    }

    /// The grid, as rows and columns, that holds one cell per core in a shape
    /// close to a square.
    pub fn grid_dimensions(&self, cpu_snapshot: &CpuSnapshot) -> (dimensions: (u16, u16))
        requires
            cpu_snapshot.cores@.len() <= u16::MAX,
        ensures
            is_core_grid(
                cpu_snapshot.cores@.len() as int,
                dimensions.0 as int,
                dimensions.1 as int,
            ),
    {
        let cores: usize = cpu_snapshot.cores.len();
        if cores <= 3 {
            return (cores as u16, 1);
        }
        let rows: usize = fast_int_sqrt(cores);
        assert(0 < rows <= cores) by (nonlinear_arith)
            requires
                cores > 3,
                0 <= rows,
                rows * rows <= cores,
                cores < (rows + 1) * (rows + 1),
        ;
        let mut cols: usize = 0;
        while cols * rows < cores
            invariant
                0 < rows <= cores <= u16::MAX,
                cols <= cores,
                cols > 0 ==> (cols - 1) * rows < cores,
                cols * rows <= 0xfffe_0001,
            decreases cores - cols,
        {
            assert(cols < cores) by (nonlinear_arith)
                requires
                    cols * rows < cores,
                    0 < rows,
                    0 <= cols,
            ;
            cols += 1;
            assert(cols * rows <= 0xfffe_0001) by (nonlinear_arith)
                requires
                    0 <= cols <= 0xffff,
                    0 <= rows <= 0xffff,
            ;
        }
        (rows as u16, cols as u16)
    }
}

} // verus!
