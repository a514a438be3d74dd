//! A showcase that is built when it is first needed.

use crate::mandelbrot::{mandelbrot_commands, Mandelbrot};
use crate::render_pass::{DrawCommand, RenderPass};
use crate::triangle::{triangle_commands, Triangle};
use vstd::prelude::*;

verus! {

/// What every showcase that needs nothing from outside can do.
pub trait DemoImpl: Sized {
    /// What one draw records.
    spec fn commands() -> Seq<DrawCommand>;

    /// Whether the buffers hold what the showcase draws.
    spec fn ready(&self) -> bool;

    /// Builds the showcase.
    fn create() -> (demo: Self)
        ensures
            demo.ready(),
    ;

    /// Records one draw of the showcase.
    fn record(&self, render_pass: &mut RenderPass)
        ensures
            final(render_pass)@ == old(render_pass)@ + Self::commands(),
    ;
}

impl DemoImpl for Triangle {
    open spec fn commands() -> Seq<DrawCommand> {
        triangle_commands()
    }

    open spec fn ready(&self) -> bool {
        self.wf()
    }

    fn create() -> (demo: Self) {
        Triangle::new()
    }

    fn record(&self, render_pass: &mut RenderPass) {
        self.draw(render_pass)
    }
}

impl DemoImpl for Mandelbrot {
    open spec fn commands() -> Seq<DrawCommand> {
        mandelbrot_commands()
    }

    open spec fn ready(&self) -> bool {
        self.wf()
    }

    fn create() -> (demo: Self) {
        Mandelbrot::new()
    }

    fn record(&self, render_pass: &mut RenderPass) {
        self.draw(render_pass)
    }
}

/// Holds a showcase from its first update on. Once built, the showcase
/// stays as it is for as long as the holder lives.
pub struct Demo<T: DemoImpl> {
    resource: Option<T>,
}

impl<T: DemoImpl> Demo<T> {
    /// The showcase, once it is built.
    pub closed spec fn resource(&self) -> Option<T> {
        self.resource
    }

    /// Nothing is held that is not ready to be drawn.
    pub open spec fn wf(&self) -> bool {
        self.resource() matches Some(demo) ==> demo.ready()
    }

    /// Starts empty.
    pub fn new() -> (demo: Self)
        ensures
            demo.resource() is None,
            demo.wf(),
    {
        Demo { resource: None }
    }

    /// Builds the showcase if it is not there yet; one that is there is
    /// kept.
    pub fn update(&mut self)
        requires
            old(self).wf(),
        ensures
            final(self).wf(),
            final(self).resource() is Some,
            old(self).resource() is Some ==> final(self).resource() == old(self).resource(),
    {
        if self.resource.is_none() {
            let demo = T::create();
            self.resource = Some(demo);
        }
    }

    /// Records one draw of the showcase, which has to be built.
    pub fn draw(&self, render_pass: &mut RenderPass)
        requires
            self.resource() is Some,
        ensures
            final(render_pass)@ == old(render_pass)@ + T::commands(),
    {
        match &self.resource {
            Some(demo) => demo.record(render_pass),
            None => {},
        }
    }
}

} // verus!
