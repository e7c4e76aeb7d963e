use deps_status::badge::{asset_path, displayed_status, param_for, ImageFormat, MyParam};
use deps_status::error::Failure;
use deps_status::manifest::DependencyClass;
use deps_status::status::Status;

#[test]
fn param_for_primary_png() {
    assert_eq!(
        MyParam::from_param("status.png"),
        Ok(MyParam { deps_type: DependencyClass::Primary, ext: ImageFormat::Png })
    );
}

#[test]
fn param_for_primary_svg() {
    assert_eq!(
        MyParam::from_param("status.svg"),
        Ok(MyParam { deps_type: DependencyClass::Primary, ext: ImageFormat::Svg })
    );
}

#[test]
fn param_for_development_png() {
    assert_eq!(
        MyParam::from_param("dev-status.png"),
        Ok(MyParam { deps_type: DependencyClass::Development, ext: ImageFormat::Png })
    );
}

#[test]
fn param_for_development_svg() {
    assert_eq!(
        MyParam::from_param("dev-status.svg"),
        Ok(MyParam { deps_type: DependencyClass::Development, ext: ImageFormat::Svg })
    );
}

#[test]
fn other_params_are_handed_back() {
    for param in [
        "",
        ".",
        "status",
        "status.",
        ".png",
        "status.gif",
        "status.PNG",
        "Status.png",
        "foo.png",
        "status.png.svg",
        "dev-status.png ",
        "devstatus.png",
    ] {
        assert_eq!(MyParam::from_param(param), Err(param));
    }
}

#[test]
fn param_for_round_trips() {
    for class in [DependencyClass::Primary, DependencyClass::Development] {
        for format in [ImageFormat::Png, ImageFormat::Svg] {
            let param = param_for(class, format);
            assert_eq!(
                MyParam::from_param(param.as_str()),
                Ok(MyParam { deps_type: class, ext: format })
            );
        }
    }
    assert_eq!(param_for(DependencyClass::Development, ImageFormat::Svg), "dev-status.svg");
}

#[test]
fn extensions() {
    assert_eq!(ImageFormat::Png.extension(), "png");
    assert_eq!(ImageFormat::Svg.extension(), "svg");
}

#[test]
fn failures_are_shown_as_unknown() {
    assert_eq!(displayed_status(Err(Failure::BadStatus(404))), Status::Unknown);
    assert_eq!(displayed_status(Err(Failure::InvalidDescriptor)), Status::Unknown);
    assert_eq!(displayed_status(Ok(Status::UpToDate)), Status::UpToDate);
    assert_eq!(displayed_status(Ok(Status::OutOfDate)), Status::OutOfDate);
    assert_eq!(displayed_status(Ok(Status::Unknown)), Status::Unknown);
}

#[test]
fn asset_paths() {
    assert_eq!(asset_path(Status::OutOfDate, ImageFormat::Png), "public/img/status/outofdate.png");
    assert_eq!(asset_path(Status::UpToDate, ImageFormat::Svg), "public/img/status/uptodate.svg");
    assert_eq!(asset_path(Status::Unknown, ImageFormat::Svg), "public/img/status/unknown.svg");
}
