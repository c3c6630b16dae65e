use vstd::prelude::*;
use crate::raster::RgbRaster;
use crate::raster::raster_bytes;
use crate::raster::raster_from_raw;
use crate::raster::raster_height;
use crate::raster::raster_width;

verus! {

/// How the integration of one ray ended.
#[derive(Clone, Copy, Debug, PartialEq, Eq, Structural)]
pub enum Event {
    /// The ray fell into the black hole (or the integration broke down).
    Capture,
    /// The ray reached the celestial sphere.
    Escape,
    /// The ray hit the accretion disk.
    Disk,
    /// The step budget ran out.
    MaxSteps,
}

/// Errors of the rendering front end.
#[derive(Clone, Copy, Debug, PartialEq, Eq, Structural)]
pub enum RenderError {
    /// A debug ray was asked for outside the image.
    PixelOutOfBounds,
    /// `--debug-ray` was not given exactly two coordinates.
    DebugRayArity,
    /// The image buffer could not be built (its size overflows `usize`).
    ImageBuffer,
}

impl RenderError {
    /// The message shown to the user.
    pub fn message(&self) -> (s: &'static str)
        ensures
            s@ == spec_error_message(*self),
    {
        match self {
            RenderError::PixelOutOfBounds => "debug ray pixel out of bounds",
            RenderError::DebugRayArity => "--debug-ray expects exactly 2 integers",
            RenderError::ImageBuffer => "failed to build image buffer",
        }
    }
}

pub open spec fn spec_error_message(e: RenderError) -> Seq<char> {
    match e {
        RenderError::PixelOutOfBounds => "debug ray pixel out of bounds"@,
        RenderError::DebugRayArity => "--debug-ray expects exactly 2 integers"@,
        RenderError::ImageBuffer => "failed to build image buffer"@,
    }
}

pub open spec fn spec_event_name(ev: Event) -> Seq<char> {
    match ev {
        Event::Capture => "capture"@,
        Event::Escape => "escape"@,
        Event::Disk => "disk"@,
        Event::MaxSteps => "max_steps"@,
    }
}

/// The name under which a debug trace reports its event.
pub fn event_name(ev: Event) -> (s: &'static str)
    ensures
        s@ == spec_event_name(ev),
{
    match ev {
        Event::Capture => "capture",
        Event::Escape => "escape",
        Event::Disk => "disk",
        Event::MaxSteps => "max_steps",
    }
}

/// Whether an event shows the color the ray carried (sky or disk).
pub open spec fn shows_color(ev: Event) -> bool {
    ev is Escape || ev is Disk
}

/// The color of a pixel whose ray ended with `ev` carrying the color `col`:
/// escaped and disk rays show their color, captured rays and rays that ran
/// out of steps are black.
pub fn pixel_color(ev: Event, col: [u8; 3]) -> (c: [u8; 3])
    ensures
        shows_color(ev) ==> c == col,
        !shows_color(ev) ==> c == [0u8, 0u8, 0u8],
{
    match ev {
        Event::Escape => col,
        Event::Disk => col,
        Event::Capture => [0, 0, 0],
        Event::MaxSteps => [0, 0, 0],
    }
}

/// How a ray can end during a step: every event but running out of steps,
/// which only the step budget decides.
#[derive(Clone, Copy, Debug, PartialEq, Eq, Structural)]
pub enum StopEvent {
    Capture,
    Escape,
    Disk,
}

/// The event a stop during a step is reported as.
pub open spec fn stop_event(s: StopEvent) -> Event {
    match s {
        StopEvent::Capture => Event::Capture,
        StopEvent::Escape => Event::Escape,
        StopEvent::Disk => Event::Disk,
    }
}

impl StopEvent {
    /// The event this stop is reported as.
    pub fn event(self) -> (ev: Event)
        ensures
            ev == stop_event(self),
    {
        match self {
            StopEvent::Capture => Event::Capture,
            StopEvent::Escape => Event::Escape,
            StopEvent::Disk => Event::Disk,
        }
    }
}

/// What the numerical side found while taking one integration step.
#[derive(Clone, Copy, Debug, PartialEq, Eq, Structural)]
pub enum StepCheck {
    /// The ray goes on.
    Continue,
    /// The ray ended during this step.
    Stop(StopEvent),
}

/// What the step controller asks for next.
#[derive(Clone, Copy, Debug, PartialEq, Eq, Structural)]
pub enum TraceAction {
    /// Take the integration step with this index.
    Step(u32),
    /// The ray is done: report this event and step count.
    Finish(Event, u32),
}

/// The step budget of one ray: which step is in progress out of how many.
pub struct StepController {
    step: u32,
    max_steps: u32,
}

impl StepController {
    /// The index of the step in progress.
    pub closed spec fn spec_step(self) -> nat {
        self.step as nat
    }

    /// The step budget.
    pub closed spec fn spec_max_steps(self) -> nat {
        self.max_steps as nat
    }

    /// A controller is running while a step is in progress.
    pub open spec fn running(self) -> bool {
        self.spec_step() < self.spec_max_steps()
    }

    /// Starts a ray with a budget of `max_steps` steps: step 0 is taken,
    /// unless the budget is empty, in which case the ray ends at once with
    /// `MaxSteps` after 0 steps.
    pub fn start(max_steps: u32) -> (res: (StepController, TraceAction))
        ensures
            res.0.spec_step() == 0,
            res.0.spec_max_steps() == max_steps,
            max_steps > 0 ==> res.1 == TraceAction::Step(0),
            max_steps == 0 ==> res.1 == TraceAction::Finish(Event::MaxSteps, 0),
    {
        let c = StepController { step: 0, max_steps };
        if max_steps == 0 {
            (c, TraceAction::Finish(Event::MaxSteps, 0))
        } else {
            (c, TraceAction::Step(0))
        }
    }

    /// The index of the step in progress.
    pub fn step(&self) -> (s: u32)
        ensures
            s == self.spec_step(),
    {
        self.step
    }

    /// Hands the controller the outcome of the step in progress. A stop ends
    /// the ray with its event at the index of this step (a ray ends with
    /// `MaxSteps` only once the whole budget is spent); otherwise the next
    /// step is taken, or, once the budget is spent, the ray ends with
    /// `MaxSteps` and the whole budget as its count.
    pub fn advance(&mut self, check: StepCheck) -> (act: TraceAction)
        requires
            old(self).running(),
        ensures
            final(self).spec_max_steps() == old(self).spec_max_steps(),
            act matches TraceAction::Finish(_, n) ==> n <= old(self).spec_max_steps(),
            act matches TraceAction::Step(n) ==> n < old(self).spec_max_steps() && final(self).running(),
            act matches TraceAction::Finish(Event::MaxSteps, n) ==> n == old(self).spec_max_steps(),
            match check {
                StepCheck::Stop(stop) => {
                    &&& act == TraceAction::Finish(stop_event(stop), old(self).spec_step() as u32)
                    &&& final(self).spec_step() == old(self).spec_step()
                },
                StepCheck::Continue => {
                    &&& final(self).spec_step() == old(self).spec_step() + 1
                    &&& final(self).running() ==> act == TraceAction::Step(final(self).spec_step() as u32)
                    &&& !final(self).running() ==> act == TraceAction::Finish(
                        Event::MaxSteps,
                        old(self).spec_max_steps() as u32,
                    )
                },
            },
    {
        match check {
            StepCheck::Stop(stop) => TraceAction::Finish(stop.event(), self.step),
            StepCheck::Continue => {
                self.step = self.step + 1;
                if self.step < self.max_steps {
                    TraceAction::Step(self.step)
                } else {
                    TraceAction::Finish(Event::MaxSteps, self.max_steps)
                }
            },
        }
    }
}

/// The pixel (column, row) that the `idx`-th pixel of a row-major image of
/// the given width stands for.
pub fn pixel_of_index(idx: u32, width: u32) -> (res: (u32, u32))
    requires
        width > 0,
    ensures
        res.0 == idx % width,
        res.1 == idx / width,
        res.0 < width,
        res.1 * width + res.0 == idx,
{
    let x = idx % width;
    let y = idx / width;
    proof {
        vstd::arithmetic::div_mod::lemma_fundamental_div_mod(idx as int, width as int);
        vstd::arithmetic::mul::lemma_mul_is_commutative(width as int, y as int);
    }
    (x, y)
}

/// Checks that a debug ray is asked for inside a `width` by `height` image.
pub fn check_debug_pixel(px: u32, py: u32, width: u32, height: u32) -> (res: Result<(), RenderError>)
    ensures
        res is Ok <==> (px < width && py < height),
        res is Err ==> res == Err::<(), RenderError>(RenderError::PixelOutOfBounds),
{
    if px >= width || py >= height {
        Err(RenderError::PixelOutOfBounds)
    } else {
        Ok(())
    }
}

/// The pixel named by the `--debug-ray` option: exactly two coordinates.
pub fn debug_ray_pixel(coords: &Vec<u32>) -> (res: Result<(u32, u32), RenderError>)
    ensures
        coords@.len() == 2 ==> res == Ok::<(u32, u32), RenderError>((coords@[0], coords@[1])),
        coords@.len() != 2 ==> res == Err::<(u32, u32), RenderError>(RenderError::DebugRayArity),
{
    if coords.len() != 2 {
        Err(RenderError::DebugRayArity)
    } else {
        Ok((coords[0], coords[1]))
    }
}

/// The bytes of a row-major RGB image whose pixels are `pixels`, three per pixel.
pub open spec fn rgb_bytes(pixels: Seq<[u8; 3]>) -> Seq<u8> {
    Seq::new(3 * pixels.len(), |k: int| pixels[k / 3][k % 3])
}

/// Builds the `width` by `height` RGB image whose `i`-th pixel (row-major) is
/// `pixels[i]`. Fails with `ImageBuffer` exactly when the image's byte count
/// does not fit in `usize`.
pub fn assemble_image(width: u32, height: u32, pixels: &Vec<[u8; 3]>) -> (res: Result<RgbRaster, RenderError>)
    requires
        pixels@.len() == width * height,
    ensures
        res is Err <==> (3 * width > usize::MAX || 3 * width * height > usize::MAX),
        res is Err ==> res == Err::<RgbRaster, RenderError>(RenderError::ImageBuffer),
        res matches Ok(img) ==> {
            &&& raster_width(img) == width
            &&& raster_height(img) == height
            &&& raster_bytes(img) == rgb_bytes(pixels@)
            &&& raster_bytes(img).len() == 3 * width * height
            &&& forall|i: int, k: int|
                0 <= i < pixels@.len() && 0 <= k < 3 ==> #[trigger] raster_bytes(img)[3 * i + k]
                    == pixels@[i][k]
        },
{
    proof {
        lemma_rgb_bytes_layout(pixels@);
    }
    let row_bytes = match 3usize.checked_mul(width as usize) {
        Some(v) => v,
        None => return Err(RenderError::ImageBuffer),
    };
    let total = match row_bytes.checked_mul(height as usize) {
        Some(v) => v,
        None => return Err(RenderError::ImageBuffer),
    };
    assert(3 * width * height == 3 * (width * height)) by (nonlinear_arith);
    let n = pixels.len();
    let mut buf: Vec<u8> = Vec::new();
    let mut i: usize = 0;
    while i < n
        invariant
            n == pixels@.len(),
            i <= n,
            3 * n == total,
            buf@ == rgb_bytes(pixels@.take(i as int)),
        decreases n - i,
    {
        let c = pixels[i];
        buf.push(c[0]);
        buf.push(c[1]);
        buf.push(c[2]);
        proof {
            let prev = pixels@.take(i as int);
            let next = pixels@.take(i + 1);
            assert forall|k: int| 0 <= k < 3 * (i + 1) implies #[trigger] buf@[k] == rgb_bytes(next)[k] by {
                if k < 3 * i {
                    assert(buf@[k] == rgb_bytes(prev)[k]);
                    assert(k / 3 < i);
                } else {
                    assert(k / 3 == i);
                }
            }
            assert(buf@ =~= rgb_bytes(next));
        }
        i = i + 1;
    }
    assert(pixels@.take(n as int) =~= pixels@);
    match raster_from_raw(width, height, buf) {
        Some(img) => Ok(img),
        None => Err(RenderError::ImageBuffer),
    }
}

/// The color traced for the `idx`-th pixel lands, in the assembled image, at
/// the bytes of the pixel (column, row) that `pixel_of_index` names for it.
pub proof fn lemma_pixel_lands_at_its_coordinates(pixels: Seq<[u8; 3]>, width: u32, idx: int, k: int)
    requires
        width > 0,
        0 <= idx < pixels.len(),
        0 <= k < 3,
    ensures
        rgb_bytes(pixels)[3 * ((idx / width as int) * width + idx % width as int) + k] == pixels[idx][k],
{
    vstd::arithmetic::div_mod::lemma_fundamental_div_mod(idx, width as int);
    vstd::arithmetic::mul::lemma_mul_is_commutative(width as int, idx / width as int);
    assert((3 * idx + k) / 3 == idx);
    assert((3 * idx + k) % 3 == k);
}

/// An RGB byte image holds exactly three bytes per pixel, and pixel `i`'s
/// channel `k` is byte `3 * i + k`.
pub proof fn lemma_rgb_bytes_layout(pixels: Seq<[u8; 3]>)
    ensures
        rgb_bytes(pixels).len() == 3 * pixels.len(),
        forall|i: int, k: int|
            0 <= i < pixels.len() && 0 <= k < 3 ==> #[trigger] rgb_bytes(pixels)[3 * i + k] == pixels[i][k],
{
    assert forall|i: int, k: int| 0 <= i < pixels.len() && 0 <= k < 3 implies #[trigger] rgb_bytes(
        pixels,
    )[3 * i + k] == pixels[i][k] by {
        assert((3 * i + k) / 3 == i);
        assert((3 * i + k) % 3 == k);
    }
}

} // verus!
