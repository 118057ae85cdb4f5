//! The integer side of a render: which requests can be served, and how an
//! image is put together from its pixels, row by row, in order.
use vstd::prelude::*;

verus! {

/// Why a render request cannot be served.
#[derive(Clone, Copy, Debug, PartialEq, Eq, Structural)]
pub enum RenderError {
    /// Zero rays per pixel: there is nothing to average.
    NoSamples,
    /// The image has no pixels: its width or its height is zero.
    EmptyImage,
}

impl RenderError {
    /// A short description of the error.
    pub fn message(&self) -> (r: &'static str) {
        match self {
            RenderError::NoSamples => "rays per pixel must be at least 1",
            RenderError::EmptyImage => "width and height must be positive",
        }
    }
}

/// Checks a request for a `width` by `height` image with `rays_per_pixel`
/// samples per pixel. Zero samples are refused first, then an empty image.
pub fn check_render_request(rays_per_pixel: usize, width: usize, height: usize) -> (r: Result<
    (),
    RenderError,
>)
    ensures
        r == (if rays_per_pixel == 0 {
            Err(RenderError::NoSamples)
        } else if width == 0 || height == 0 {
            Err(RenderError::EmptyImage)
        } else {
            Ok(())
        }),
{
    if rays_per_pixel == 0 {
        Err(RenderError::NoSamples)
    } else if width == 0 || height == 0 {
        Err(RenderError::EmptyImage)
    } else {
        Ok(())
    }
}

/// The values `f(0), f(1), ..., f(n - 1)`, in that order: one row of an
/// image from its pixel function, or the rows of an image from its row
/// function.
pub fn tabulate<T, F: Fn(usize) -> T>(n: usize, f: F) -> (r: Vec<T>)
    requires
        forall|i: usize| i < n ==> f.requires((i,)),
    ensures
        r@.len() == n,
        forall|i: int| 0 <= i < n ==> f.ensures((i as usize,), #[trigger] r@[i]),
{
    let mut r: Vec<T> = Vec::new();
    let mut i: usize = 0;
    while i < n
        invariant
            i <= n,
            r@.len() == i,
            forall|j: usize| j < n ==> f.requires((j,)),
            forall|j: int| 0 <= j < i ==> f.ensures((j as usize,), #[trigger] r@[j]),
        decreases n - i,
    {
        let v = f(i);
        r.push(v);
        i = i + 1;
    }
    r
}

} // verus!
