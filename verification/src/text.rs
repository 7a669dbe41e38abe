use vstd::prelude::*;

verus! {

/// The message for a text that could not be rendered to a surface, `detail`
/// being what the renderer reported.
pub open spec fn surface_failure_text(detail: Seq<char>) -> Seq<char> {
    "Failed to create surface for text texture: "@ + detail
}

/// The message for a rendered text that could not be turned into a texture,
/// `detail` being what the texture creator reported.
pub open spec fn texture_failure_text(detail: Seq<char>) -> Seq<char> {
    "Failed to create text texture from surface: "@ + detail
}

/// What rendering a text to a surface comes to: the surface itself, or the
/// renderer's report under a heading that names this step.
pub fn surface_outcome<S>(rendered: Result<S, String>) -> (out: Result<S, String>)
    ensures
        match rendered {
            Ok(surface) => out == Ok::<S, String>(surface),
            Err(detail) => out is Err && out->Err_0@ == surface_failure_text(detail@),
        },
{
    match rendered {
        Ok(surface) => Ok(surface),
        Err(detail) => {
            let mut msg = "Failed to create surface for text texture: ".to_owned();
            msg.append(detail.as_str());
            Err(msg)
        },
    }
}

/// What turning a rendered text into a texture comes to: the texture itself,
/// or the creator's report under a heading that names this step.
pub fn texture_outcome<X>(created: Result<X, String>) -> (out: Result<X, String>)
    ensures
        match created {
            Ok(texture) => out == Ok::<X, String>(texture),
            Err(detail) => out is Err && out->Err_0@ == texture_failure_text(detail@),
        },
{
    match created {
        Ok(texture) => Ok(texture),
        Err(detail) => {
            let mut msg = "Failed to create text texture from surface: ".to_owned();
            msg.append(detail.as_str());
            Err(msg)
        },
    }
}

/// Creates a texture that shows a text, in two steps that the caller
/// supplies: `render` draws the text on a surface, `create` turns that
/// surface into a texture. The second step runs only when the first
/// succeeded. Either step's failure comes back under its own heading.
pub fn create_text_texture<S, X, R, C>(render: R, create: C) -> (out: Result<X, String>) where
    R: FnOnce() -> Result<S, String>,
    C: FnOnce(S) -> Result<X, String>,

    requires
        render.requires(()),
        forall|surface: S| render.ensures((), Ok(surface)) ==> create.requires((surface,)),
    ensures
        match out {
            Ok(texture) => exists|surface: S|
                render.ensures((), Ok(surface)) && create.ensures((surface,), Ok(texture)),
            Err(msg) => {
                ||| exists|detail: String|
                    render.ensures((), Err(detail)) && msg@ == surface_failure_text(detail@)
                ||| exists|surface: S, detail: String|
                    render.ensures((), Ok(surface)) && create.ensures((surface,), Err(detail))
                        && msg@ == texture_failure_text(detail@)
            },
        },
{
    match surface_outcome(render()) {
        Err(msg) => Err(msg),
        Ok(surface) => texture_outcome(create(surface)),
    }
}

} // verus!
