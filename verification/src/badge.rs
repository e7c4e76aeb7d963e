//! The inbound side: which badge a request asks for, and which image asset
//! answers it.

use vstd::prelude::*;
use vstd::string::*;
use crate::error::Failure;
use crate::manifest::DependencyClass;
use crate::status::Status;

verus! {

/// The formats in which a badge is kept.
#[derive(Clone, Copy, Debug, PartialEq, Eq, Structural)]
pub enum ImageFormat {
    Png,
    Svg,
}

impl ImageFormat {
    /// The file extension of the format.
    pub open spec fn spec_extension(self) -> Seq<char> {
        match self {
            ImageFormat::Png => "png"@,
            ImageFormat::Svg => "svg"@,
        }
    }

    /// The file extension of the format.
    pub fn extension(self) -> (text: &'static str)
        ensures
            text@ == self.spec_extension(),
    {
        match self {
            ImageFormat::Png => "png",
            ImageFormat::Svg => "svg",
        }
    }
}

/// The word by which a badge request names a dependency class.
pub open spec fn class_word(class: DependencyClass) -> Seq<char> {
    match class {
        DependencyClass::Primary => "status"@,
        DependencyClass::Development => "dev-status"@,
    }
}

/// The parameter that asks for the badge of a class in a format: the class
/// word, a dot, and the format's extension.
pub open spec fn param_of(class: DependencyClass, format: ImageFormat) -> Seq<char> {
    class_word(class) + "."@ + format.spec_extension()
}

/// The parameter that asks for the badge of a class in a format.
pub fn param_for(class: DependencyClass, format: ImageFormat) -> (param: String)
    ensures
        param@ == param_of(class, format),
{
    let word = match class {
        DependencyClass::Primary => "status",
        DependencyClass::Development => "dev-status",
    };
    word.to_owned().concat(".").concat(format.extension())
}

/// No two badges are asked for by the same parameter.
pub proof fn lemma_param_of_injective(
    class: DependencyClass,
    format: ImageFormat,
    other_class: DependencyClass,
    other_format: ImageFormat,
)
    requires
        param_of(class, format) == param_of(other_class, other_format),
    ensures
        class == other_class,
        format == other_format,
{
    reveal_strlit("status");
    reveal_strlit("dev-status");
    reveal_strlit(".");
    reveal_strlit("png");
    reveal_strlit("svg");
    let a = param_of(class, format);
    let b = param_of(other_class, other_format);
    assert(a[a.len() - 3] == b[b.len() - 3]);
}

/// What a badge request asks for: a dependency class and an image format.
#[derive(Clone, Copy, Debug, PartialEq, Eq, Structural)]
pub struct MyParam {
    pub deps_type: DependencyClass,
    pub ext: ImageFormat,
}

impl MyParam {
    /// Reads a request parameter. It is accepted exactly when it asks for
    /// one of the badges; a parameter that asks for none is handed back.
    pub fn from_param<'r>(param: &'r str) -> (r: Result<MyParam, &'r str>)
        ensures
            match r {
                Ok(asked) => param@ == param_of(asked.deps_type, asked.ext),
                Err(rejected) => rejected@ == param@ && forall|
                    class: DependencyClass,
                    format: ImageFormat,
                | param@ != #[trigger] param_of(class, format),
            },
    {
        let given = param.to_owned();
        if given == param_for(DependencyClass::Primary, ImageFormat::Png) {
            Ok(MyParam { deps_type: DependencyClass::Primary, ext: ImageFormat::Png })
        } else if given == param_for(DependencyClass::Primary, ImageFormat::Svg) {
            Ok(MyParam { deps_type: DependencyClass::Primary, ext: ImageFormat::Svg })
        } else if given == param_for(DependencyClass::Development, ImageFormat::Png) {
            Ok(MyParam { deps_type: DependencyClass::Development, ext: ImageFormat::Png })
        } else if given == param_for(DependencyClass::Development, ImageFormat::Svg) {
            Ok(MyParam { deps_type: DependencyClass::Development, ext: ImageFormat::Svg })
        } else {
            Err(param)
        }
    }
}

/// The status that is shown for the outcome of a request: the status that
/// the request gave, and `Unknown` for every failure.
pub open spec fn shown(outcome: Result<Status, Failure>) -> Status {
    match outcome {
        Ok(status) => status,
        Err(_) => Status::Unknown,
    }
}

/// The status that is shown for the outcome of a request.
pub fn displayed_status(outcome: Result<Status, Failure>) -> (status: Status)
    ensures
        status == shown(outcome),
{
    match outcome {
        Ok(status) => status,
        Err(_) => Status::Unknown,
    }
}

/// Where the image of a status is kept, in a format.
pub open spec fn asset_path_of(status: Status, format: ImageFormat) -> Seq<char> {
    "public/img/status/"@ + status.spec_label() + "."@ + format.spec_extension()
}

/// The path of the image asset that shows a status in a format.
pub fn asset_path(status: Status, format: ImageFormat) -> (path: String)
    ensures
        path@ == asset_path_of(status, format),
{
    "public/img/status/".to_owned().concat(status.label()).concat(".").concat(format.extension())
}

} // verus!
