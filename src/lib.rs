//! Orchestration layer of a B-spline curve fitter.
//!
//! The numerical least-squares solver and all floating-point work stay outside
//! this library. What it holds is the part that has to be exactly right for the
//! solver to be called safely: validation of fit requests, the closed-form sizes
//! of the solver's buffers, the layout of what the solver hands back, the
//! padding of fixed knot vectors, and the decisions of the smoothing search.
//! Values of the curve (knots, coefficients, errors) are carried as an opaque
//! element type `T`.

pub mod error;
pub mod sizing;
pub mod request;
pub mod curve;
pub mod session;
pub mod knots;
pub mod search;
pub mod fit;

pub use curve::Spline;
pub use error::{DierckxError, ErrorKind};
pub use fit::{ClosedParameterSplineCurveFit, CurveSplineFit, ParameterSplineCurveFit};
pub use search::{Phase, SmoothingSearch, Step};
pub use session::FitSession;
pub use sizing::BufferSizes;
