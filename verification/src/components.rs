//! Board components: each bundles the creation of one driver and its
//! wiring at boot.  Creating a component is free of side effects; the
//! `finalize` step, which touches the hardware and the kernel, is left
//! to the board's startup code outside this library.

use vstd::prelude::*;

verus! {

/// A board component: one driver and the resources it needs, set up in
/// a single step at boot.
pub trait Component {
    /// The driver this component hands back.
    type Output;

    /// Perform the one-time setup and return the driver, or `None` if
    /// the component cannot be brought up.
    fn finalize(&mut self) -> Option<Self::Output>;
}

/// A component that must be handed a dependency before it can be
/// finalized.
pub trait ComponentWithDependency<D>: Component {
    /// Accept the dependency.  Components that need nothing ignore it.
    fn dependency(&mut self, dep: D) {
    }
}

/// Assembles the analog-to-digital converter driver.
pub struct AdcComponent;

impl AdcComponent {
    pub fn new() -> (c: Self)
        ensures
            c == (AdcComponent {  }),
    {
        AdcComponent {  }
    }
}

/// Assembles the clock management driver.
pub struct ClockComponent;

impl ClockComponent {
    pub fn new() -> (c: Self)
        ensures
            c == (ClockComponent {  }),
    {
        ClockComponent {  }
    }
}

/// Assembles the nonvolatile storage driver over the flash controller.
pub struct NonvolatileStorageComponent;

impl NonvolatileStorageComponent {
    pub fn new() -> (c: Self)
        ensures
            c == (NonvolatileStorageComponent {  }),
    {
        NonvolatileStorageComponent {  }
    }
}

/// Assembles the console driver over the first UART.
pub struct XConsoleComponent;

impl XConsoleComponent {
    pub fn new() -> (c: Self)
        ensures
            c == (XConsoleComponent {  }),
    {
        XConsoleComponent {  }
    }
}

/// Assembles the LED driver.
pub struct LedComponent;

impl LedComponent {
    pub fn new() -> (c: Self)
        ensures
            c == (LedComponent {  }),
    {
        LedComponent {  }
    }
}

} // verus!
