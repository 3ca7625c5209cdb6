use color_field::shaders::{select_dialect, ShaderDialect};

#[test]
fn embedded_contexts_get_an_es_dialect() {
    assert_eq!(select_dialect(true, 0), ShaderDialect::GlSlEs100);
    assert_eq!(select_dialect(true, 2), ShaderDialect::GlSlEs100);
    assert_eq!(select_dialect(true, 3), ShaderDialect::GlSlEs300);
    assert_eq!(select_dialect(true, 4), ShaderDialect::GlSlEs300);
    assert_eq!(select_dialect(true, u32::MAX), ShaderDialect::GlSlEs300);
}

#[test]
fn desktop_contexts_get_a_desktop_dialect() {
    assert_eq!(select_dialect(false, 0), ShaderDialect::GlSl110);
    assert_eq!(select_dialect(false, 1), ShaderDialect::GlSl110);
    assert_eq!(select_dialect(false, 2), ShaderDialect::GlSl110);
    assert_eq!(select_dialect(false, 3), ShaderDialect::GlSl130);
    assert_eq!(select_dialect(false, 4), ShaderDialect::GlSl400);
    assert_eq!(select_dialect(false, 5), ShaderDialect::GlSl400);
    assert_eq!(select_dialect(false, u32::MAX), ShaderDialect::GlSl400);
}
