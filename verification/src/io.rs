//! The interface between the machine and the input and output systems of
//! its host.

use vstd::prelude::*;

verus! {

/// An input and output system that the machine can drive.
pub trait Subsystem {
    /// Called once for every cycle of the machine.
    fn tick(&mut self);

    /// Called when the machine stops.
    fn quit(&mut self);
}

/// Chooses among input and output systems by their mode number:
/// 0 for none, 1 for the filter, 2 for Glk, 0x20 for FyreVM.
pub trait SubsystemManager: Subsystem {
    /// The mode and the rock that are selected.
    spec fn selected(&self) -> (u32, u32);

    /// Whether the manager offers the system of this mode.
    spec fn supports(&self, mode: u32) -> bool;

    /// Selects the system of the given mode, with the given rock.
    fn set_io_subsystem(&mut self, mode: u32, rock: u32)
        requires
            old(self).supports(mode),
        ensures
            final(self).selected() == (mode, rock),
            forall|m: u32| final(self).supports(m) == old(self).supports(m),
    ;

    /// The mode and the rock that are selected.
    fn get_io_subsystem(&self) -> (r: (u32, u32))
        ensures
            r == self.selected(),
    ;

    /// 1 where the manager offers the system of this mode, else 0.
    fn gestalt_io_subsystem(&self, mode: u16) -> (r: u32)
        ensures
            r == if self.supports(mode as u32) {
                1u32
            } else {
                0u32
            },
    ;
}

/// The filter system: output goes to a function of the program, whose
/// address is the rock.
#[derive(Clone, Copy, Debug, PartialEq, Eq, Structural)]
pub struct Filter {
    pub rock: u32,
}

impl Filter {
    /// The filter system with the given rock.
    pub fn new(rock: u32) -> (f: Filter)
        ensures
            f.rock == rock,
    {
        Filter { rock }
    }
}

impl Default for Filter {
    fn default() -> (f: Filter)
        ensures
            f.rock == 0,
    {
        Filter { rock: 0 }
    }
}

impl Subsystem for Filter {
    fn tick(&mut self)
        ensures
            *final(self) == *old(self),
    {
    }

    fn quit(&mut self)
        ensures
            *final(self) == *old(self),
    {
    }
}

/// The system that drops all output.
#[derive(Clone, Copy, Debug, PartialEq, Eq, Structural)]
pub struct Null;

impl Default for Null {
    fn default() -> (n: Null) {
        Null
    }
}

impl Subsystem for Null {
    fn tick(&mut self)
        ensures
            *final(self) == *old(self),
    {
    }

    fn quit(&mut self)
        ensures
            *final(self) == *old(self),
    {
    }
}

/// The system that a `DefaultManager` has selected.
#[derive(Clone, Copy, Debug, PartialEq, Eq, Structural)]
pub enum Selected {
    Null(Null),
    Filter(Filter),
}

/// A manager that offers the null system and the filter system.
pub struct DefaultManager {
    mode: u32,
    rock: u32,
    subsystem: Selected,
}

impl DefaultManager {
    /// The system matches the mode and the rock.
    pub closed spec fn wf(&self) -> bool {
        match self.subsystem {
            Selected::Null(_) => self.mode == 0,
            Selected::Filter(f) => self.mode == 1 && f.rock == self.rock,
        }
    }

    /// The system that is selected.
    pub closed spec fn subsystem(&self) -> Selected {
        self.subsystem
    }

    /// The system that is selected.
    pub fn active(&self) -> (r: Selected)
        ensures
            r == self.subsystem(),
    {
        self.subsystem
    }
}

impl Default for DefaultManager {
    fn default() -> (m: DefaultManager)
        ensures
            m.selected() == (0u32, 0u32),
            m.subsystem() == Selected::Null(Null),
            m.wf(),
    {
        DefaultManager { mode: 0x0, rock: 0x0, subsystem: Selected::Null(Null) }
    }
}

impl SubsystemManager for DefaultManager {
    closed spec fn selected(&self) -> (u32, u32) {
        (self.mode, self.rock)
    }

    open spec fn supports(&self, mode: u32) -> bool {
        mode <= 1
    }

    fn set_io_subsystem(&mut self, mode: u32, rock: u32)
        ensures
            final(self).wf(),
            final(self).subsystem() == if mode == 0 {
                Selected::Null(Null)
            } else {
                Selected::Filter(Filter { rock })
            },
    {
        if mode == 0 {
            self.subsystem = Selected::Null(Null);
        } else {
            self.subsystem = Selected::Filter(Filter::new(rock));
        }
        self.mode = mode;
        self.rock = rock;
    }

    fn get_io_subsystem(&self) -> (r: (u32, u32)) {
        (self.mode, self.rock)
    }

    fn gestalt_io_subsystem(&self, mode: u16) -> (r: u32) {
        if mode <= 1 {
            0x1
        } else {
            0x0
        }
    }
}

impl Subsystem for DefaultManager {
    fn tick(&mut self)
        ensures
            *final(self) == *old(self),
    {
    }

    fn quit(&mut self)
        ensures
            *final(self) == *old(self),
    {
    }
}

} // verus!
