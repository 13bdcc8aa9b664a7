//! The SOLAI logo colours: which colour of the logo sequence a position
//! takes, and where a position falls on the logo gradient.

use vstd::prelude::*;

verus! {

/// The number of colours in the logo sequence.
pub const SOLAI_LOGO_COLOR_COUNT: usize = 5;

/// The logo colours as RGB triples.
pub open spec fn spec_solai_logo_rgb(index: int) -> (u8, u8, u8) {
    if index == 0 {
        (0, 128, 255)
    } else if index == 1 {
        (112, 64, 255)
    } else if index == 2 {
        (255, 0, 255)
    } else if index == 3 {
        (255, 36, 96)
    } else {
        (255, 128, 0)
    }
}

/// The RGB triple of logo colour `index` (taken modulo the sequence length).
pub fn solai_logo_rgb(index: usize) -> (r: (u8, u8, u8))
    ensures
        r == spec_solai_logo_rgb((index % SOLAI_LOGO_COLOR_COUNT) as int),
{
    let i = index % SOLAI_LOGO_COLOR_COUNT;
    if i == 0 {
        (0, 128, 255)
    } else if i == 1 {
        (112, 64, 255)
    } else if i == 2 {
        (255, 0, 255)
    } else if i == 3 {
        (255, 36, 96)
    } else {
        (255, 128, 0)
    }
}

/// The colour of the logo sequence used at `index`.
pub fn solai_logo_color_index(index: usize) -> (r: usize)
    ensures
        r == index % SOLAI_LOGO_COLOR_COUNT,
        r < SOLAI_LOGO_COLOR_COUNT,
{
    index % SOLAI_LOGO_COLOR_COUNT
}

/// Where a position falls on the logo gradient.
#[derive(Clone, Copy, Debug, PartialEq, Eq, Structural)]
pub enum GradientStop {
    /// Exactly on logo colour `index`.
    Exact(usize),
    /// Between logo colours `segment` and `segment + 1`, `offset / span` of
    /// the way.
    Between { segment: usize, offset: usize, span: usize },
}

/// The position clamped to the last column of a run `width` wide.
pub open spec fn clamped_position(position: usize, width: usize) -> int {
    if position as int <= width - 1 {
        position as int
    } else {
        width - 1
    }
}

/// The arithmetic of the gradient fits the machine.
pub open spec fn gradient_fits(position: usize, width: usize) -> bool {
    width <= 1 || clamped_position(position, width) * SOLAI_LOGO_COLOR_COUNT as int <= usize::MAX
}

/// The gradient stop of `position` in a run `width` wide: the first colour
/// for runs of at most one column, the last colour at the last column, and
/// otherwise the point between two colours that the scaled position reaches.
pub open spec fn spec_gradient_stop(position: usize, width: usize) -> GradientStop {
    if width <= 1 {
        GradientStop::Exact(0)
    } else {
        let max = width - 1;
        let clamped = clamped_position(position, width);
        if clamped == max {
            GradientStop::Exact(4)
        } else {
            let scaled = clamped * 4;
            GradientStop::Between {
                segment: (scaled / max) as usize,
                offset: (scaled % max) as usize,
                span: max as usize,
            }
        }
    }
}

/// The gradient stop of a position in a run of the given width.
pub fn logo_gradient_stop(position: usize, width: usize) -> (r: GradientStop)
    requires
        gradient_fits(position, width),
    ensures
        r == spec_gradient_stop(position, width),
        r matches GradientStop::Between { segment, offset, span } ==> segment < 4 && offset < span,
{
    if width <= 1 {
        return GradientStop::Exact(0);
    }
    let max_position = width - 1;
    let clamped = if position <= max_position {
        position
    } else {
        max_position
    };
    if clamped == max_position {
        GradientStop::Exact(4)
    } else {
        let scaled = clamped * 4;
        proof {
            assert(scaled < max_position * 4) by (nonlinear_arith)
                requires
                    clamped < max_position,
                    scaled == clamped * 4,
            ;
            assert(scaled / max_position < 4) by (nonlinear_arith)
                requires
                    scaled < max_position * 4,
                    max_position > 0,
            ;
        }
        GradientStop::Between {
            segment: scaled / max_position,
            offset: scaled % max_position,
            span: max_position,
        }
    }
}

/// The ANSI logo colour of a position in a run of the given width, for
/// terminals without palette colours.
pub fn logo_gradient_ansi_index(position: usize, width: usize) -> (r: usize)
    requires
        width > 1,
        gradient_fits(position, width),
    ensures
        r == if clamped_position(position, width) * 5 / (width as int) <= 4 {
            clamped_position(position, width) * 5 / (width as int)
        } else {
            4
        },
{
    let max_position = width - 1;
    let clamped = if position <= max_position {
        position
    } else {
        max_position
    };
    let index = clamped * SOLAI_LOGO_COLOR_COUNT / width;
    if index <= 4 {
        index
    } else {
        4
    }
}

} // verus!
