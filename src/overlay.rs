//! The rectangle that an interactive area selection produces.
use vstd::prelude::*;

verus! {

/// A selected area; a drag up or to the left leaves a negative extent.
#[derive(Debug, Clone, Copy, PartialEq, Eq, Structural)]
pub struct SelectionArea {
    pub x: i32,
    pub y: i32,
    pub width: i32,
    pub height: i32,
}

/// Errors of the area selection.
#[derive(Debug)]
pub enum SelectionError {
    InitError(String),
    Cancelled,
}

pub type SelectionResult = Result<Option<SelectionArea>, SelectionError>;

impl SelectionArea {
    /// The same rectangle with a non-negative extent: a negative width moves
    /// the origin left by that much, a negative height moves it up.
    pub open spec fn spec_normalize(self) -> SelectionArea {
        SelectionArea {
            x: if self.width < 0 { (self.x + self.width) as i32 } else { self.x },
            y: if self.height < 0 { (self.y + self.height) as i32 } else { self.y },
            width: if self.width < 0 { (-self.width) as i32 } else { self.width },
            height: if self.height < 0 { (-self.height) as i32 } else { self.height },
        }
    }

    /// Normalises the rectangle so that its extent is non-negative.
    pub fn normalize(self) -> (r: Self)
        requires
            self.width > i32::MIN,
            self.height > i32::MIN,
            self.width < 0 ==> self.x + self.width >= i32::MIN,
            self.height < 0 ==> self.y + self.height >= i32::MIN,
        ensures
            r == self.spec_normalize(),
    {
        let mut area = self;
        if area.width < 0 {
            area.x = area.x + area.width;
            area.width = -area.width;
        }
        if area.height < 0 {
            area.y = area.y + area.height;
            area.height = -area.height;
        }
        area
    }

    /// The rectangle has a positive area.
    pub fn is_valid(&self) -> (r: bool)
        ensures
            r == (self.width > 0 && self.height > 0),
    {
        self.width > 0 && self.height > 0
    }
}

} // verus!
