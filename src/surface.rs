use vstd::prelude::*;

verus! {

/// Which root of a ray/sphere quadratic is the reported hit.
#[derive(Clone, Copy, Debug, PartialEq, Eq, Structural)]
pub enum Root {
    /// The smaller root, where the ray enters the sphere.
    Near,
    /// The larger root, where the ray leaves the sphere.
    Far,
}

/// What a dielectric surface does with a ray.
#[derive(Clone, Copy, Debug, PartialEq, Eq, Structural)]
pub enum Bounce {
    Reflect,
    Refract,
}

pub open spec fn pick_root_spec(crosses: bool, near_in_range: bool, far_in_range: bool) -> Option<
    Root,
> {
    if !crosses {
        None
    } else if near_in_range {
        Some(Root::Near)
    } else if far_in_range {
        Some(Root::Far)
    } else {
        None
    }
}

/// Chooses the hit of a ray against a sphere: none unless the quadratic's
/// discriminant is positive (`crosses`); else the first of the two roots, the
/// smaller one first, that lies strictly inside the ray's parameter range.
pub fn pick_root(crosses: bool, near_in_range: bool, far_in_range: bool) -> (r: Option<Root>)
    ensures
        r == pick_root_spec(crosses, near_in_range, far_in_range),
{
    if !crosses {
        None
    } else if near_in_range {
        Some(Root::Near)
    } else if far_in_range {
        Some(Root::Far)
    } else {
        None
    }
}

/// Chooses between reflection and refraction at a dielectric boundary:
/// without a refracted ray (total internal reflection) the ray reflects;
/// otherwise it reflects exactly when the uniform sample fell below the
/// Fresnel reflectance.
pub fn dielectric_bounce(refracts: bool, sample_below_reflectance: bool) -> (b: Bounce)
    ensures
        b == (if refracts && !sample_below_reflectance {
            Bounce::Refract
        } else {
            Bounce::Reflect
        }),
{
    if refracts && !sample_below_reflectance {
        Bounce::Refract
    } else {
        Bounce::Reflect
    }
}

} // verus!
