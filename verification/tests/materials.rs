use intergen::choices::{surface_family, MaterialSurfaceFamily, MaterialSurfaceMode};

#[test]
fn legacy_material_defaults_keep_surface_mode_on_legacy() {
    let family = surface_family(
        MaterialSurfaceMode::Legacy,
        MaterialSurfaceFamily::Legacy,
        MaterialSurfaceFamily::Satin,
        MaterialSurfaceFamily::Legacy,
        3,
        0,
    );
    assert_eq!(family, MaterialSurfaceFamily::Legacy);
}

#[test]
fn deprecated_shape_specific_surface_fields_do_not_break_material_parsing() {
    let family = |level: usize| {
        surface_family(
            MaterialSurfaceMode::Procedural,
            MaterialSurfaceFamily::Glossy,
            MaterialSurfaceFamily::Satin,
            MaterialSurfaceFamily::Metal,
            3,
            level,
        )
    };
    assert_eq!(family(0), MaterialSurfaceFamily::Glossy);
    assert_eq!(family(1), MaterialSurfaceFamily::Satin);
    assert_eq!(family(3), MaterialSurfaceFamily::Metal);
}

#[test]
fn legacy_root_and_accent_fall_back_to_the_base_family() {
    let family = |accent: MaterialSurfaceFamily, every: usize, level: usize| {
        surface_family(
            MaterialSurfaceMode::Procedural,
            MaterialSurfaceFamily::Legacy,
            MaterialSurfaceFamily::Matte,
            accent,
            every,
            level,
        )
    };
    assert_eq!(family(MaterialSurfaceFamily::Frosted, 2, 0), MaterialSurfaceFamily::Matte);
    assert_eq!(family(MaterialSurfaceFamily::Frosted, 2, 4), MaterialSurfaceFamily::Frosted);
    assert_eq!(family(MaterialSurfaceFamily::Frosted, 2, 5), MaterialSurfaceFamily::Matte);
    assert_eq!(family(MaterialSurfaceFamily::Frosted, 0, 4), MaterialSurfaceFamily::Matte);
    assert_eq!(family(MaterialSurfaceFamily::Legacy, 2, 4), MaterialSurfaceFamily::Matte);
    assert_eq!(
        surface_family(
            MaterialSurfaceMode::Legacy,
            MaterialSurfaceFamily::Glossy,
            MaterialSurfaceFamily::Matte,
            MaterialSurfaceFamily::Metal,
            1,
            2,
        ),
        MaterialSurfaceFamily::Legacy
    );
}
