//! The options record and the canonical order of the steps it requests.

use vstd::prelude::*;

verus! {

/// The number of positions in the canonical order.
pub const STEP_COUNT: u8 = 8;

/// One transformation of the picture. Contrast and blur carry their
/// parameter as the bit pattern of an IEEE 754 single-precision number.
#[derive(Clone, Copy, Debug, PartialEq, Eq, Structural)]
pub enum Step {
    Rotate90,
    Rotate180,
    Rotate270,
    FlipH,
    FlipV,
    Contrast(u32),
    Blur(u32),
    Brighten(i32),
}

/// A transformation that is computed in floating point, with its parameter
/// as the bit pattern of an IEEE 754 single-precision number.
#[derive(Clone, Copy, Debug, PartialEq, Eq, Structural)]
pub enum Filter {
    Contrast(u32),
    Blur(u32),
}

/// Where the finished picture goes.
#[derive(Debug)]
pub enum Destination {
    /// To the file of this path, encoded as the path's extension says.
    File(String),
    /// To standard output, encoded in this format.
    StandardOutput(image::ImageFormat),
}

/// What was asked for: the input, the transformations, and the output.
/// An absent parameter means that its transformation is not applied; a
/// brightness of zero is a request like any other.
#[derive(Clone, Debug)]
pub struct Opt {
    pub path: String,
    pub rotate90: bool,
    pub rotate180: bool,
    pub rotate270: bool,
    pub fliph: bool,
    pub flipv: bool,
    /// Contrast adjustment, as the bits of a single-precision number.
    pub contrast: Option<u32>,
    /// Blur sigma, as the bits of a single-precision number.
    pub blur: Option<u32>,
    pub brightness: Option<i32>,
    pub output: Option<String>,
}

impl Filter {
    /// The filter as a step of the canonical order.
    pub open spec fn as_step(self) -> Step {
        match self {
            Filter::Contrast(bits) => Step::Contrast(bits),
            Filter::Blur(bits) => Step::Blur(bits),
        }
    }
}

impl Step {
    /// Whether the step is computed in floating point.
    pub open spec fn is_filter(self) -> bool {
        self is Contrast || self is Blur
    }
}

impl Opt {
    /// The step requested at position `i` of the canonical order, if any:
    /// the three rotations, the two flips, contrast, blur, brightness.
    pub open spec fn step_at(&self, i: int) -> Option<Step> {
        if i == 0 && self.rotate90 {
            Some(Step::Rotate90)
        } else if i == 1 && self.rotate180 {
            Some(Step::Rotate180)
        } else if i == 2 && self.rotate270 {
            Some(Step::Rotate270)
        } else if i == 3 && self.fliph {
            Some(Step::FlipH)
        } else if i == 4 && self.flipv {
            Some(Step::FlipV)
        } else if i == 5 && self.contrast is Some {
            Some(Step::Contrast(self.contrast->0))
        } else if i == 6 && self.blur is Some {
            Some(Step::Blur(self.blur->0))
        } else if i == 7 && self.brightness is Some {
            Some(Step::Brighten(self.brightness->0))
        } else {
            None
        }
    }

    /// The first position at or after `from` that requests a filter, or
    /// `STEP_COUNT` where there is none.
    pub open spec fn pause_at(&self, from: int) -> int {
        if from <= 5 && self.contrast is Some {
            5
        } else if from <= 6 && self.blur is Some {
            6
        } else {
            8
        }
    }

    /// No step is requested at the positions `from..to`.
    pub open spec fn is_quiet(&self, from: int, to: int) -> bool {
        forall|i: int| from <= i < to ==> self.step_at(i) is None
    }

    /// No transformation is requested.
    pub open spec fn is_idle(&self) -> bool {
        forall|i: int| self.step_at(i) is None
    }

    /// The requested steps at positions `0..upto`, in canonical order.
    pub open spec fn steps_upto(&self, upto: int) -> Seq<Step>
        decreases upto,
    {
        if upto <= 0 {
            Seq::empty()
        } else {
            match self.step_at(upto - 1) {
                Some(step) => self.steps_upto(upto - 1).push(step),
                None => self.steps_upto(upto - 1),
            }
        }
    }

    /// The step requested at position `i` of the canonical order.
    pub fn request_at(&self, i: u8) -> (r: Option<Step>)
        ensures
            r == self.step_at(i as int),
    {
        if i == 0 && self.rotate90 {
            Some(Step::Rotate90)
        } else if i == 1 && self.rotate180 {
            Some(Step::Rotate180)
        } else if i == 2 && self.rotate270 {
            Some(Step::Rotate270)
        } else if i == 3 && self.fliph {
            Some(Step::FlipH)
        } else if i == 4 && self.flipv {
            Some(Step::FlipV)
        } else if i == 5 {
            match self.contrast {
                Some(bits) => Some(Step::Contrast(bits)),
                None => None,
            }
        } else if i == 6 {
            match self.blur {
                Some(bits) => Some(Step::Blur(bits)),
                None => None,
            }
        } else if i == 7 {
            match self.brightness {
                Some(delta) => Some(Step::Brighten(delta)),
                None => None,
            }
        } else {
            None
        }
    }

    /// Every requested step, in canonical order. The order is that of the
    /// positions, never that in which the requests were made.
    pub fn plan(&self) -> (r: Vec<Step>)
        ensures
            r@ == self.steps_upto(STEP_COUNT as int),
    {
        let mut steps: Vec<Step> = Vec::new();
        let mut i: u8 = 0;
        while i < STEP_COUNT
            invariant
                i <= STEP_COUNT,
                steps@ == self.steps_upto(i as int),
            decreases STEP_COUNT - i,
        {
            match self.request_at(i) {
                Some(step) => {
                    steps.push(step);
                },
                None => {},
            }
            i = i + 1;
        }
        steps
    }

    /// Where the finished picture goes: to the output path where one was
    /// given, else to standard output in `source`, the format the input was
    /// read in.
    pub fn destination(&self, source: image::ImageFormat) -> (r: Destination)
        ensures
            match r {
                Destination::File(path) => self.output == Some(path),
                Destination::StandardOutput(format) => self.output is None && format == source,
            },
    {
        match &self.output {
            Some(path) => Destination::File(path.clone()),
            None => Destination::StandardOutput(source),
        }
    }

    /// No position before the pause requests a filter: what a run up to the
    /// pause applies is computed exactly.
    pub proof fn lemma_no_filter_before_pause(&self, from: int, i: int)
        requires
            from <= i < self.pause_at(from),
        ensures
            match self.step_at(i) {
                Some(step) => !step.is_filter(),
                None => true,
            },
    {
    }
}

} // verus!
