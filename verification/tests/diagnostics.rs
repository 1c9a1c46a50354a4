use model_viewer::diagnostics::{
    compile_outcome, creation_outcome, link_outcome, Failure, GpuObject,
};

#[test]
fn compiler_log_is_kept_verbatim() {
    let log = "0:12(3): error: `foo' undeclared\n".to_string();
    let failure = compile_outcome(false, log.clone()).unwrap_err();
    assert_eq!(failure, Failure::ShaderCompile { log: log.clone() });
    assert_eq!(failure.message(), format!("Failed to compile shader: {}", log));
    assert_eq!(compile_outcome(true, log), Ok(()));
}

#[test]
fn linker_log_is_kept_verbatim() {
    let failure = link_outcome(false, "missing main".to_string()).unwrap_err();
    assert_eq!(failure.message(), "Failed to link program: missing main");
    assert_eq!(link_outcome(true, String::new()), Ok(()));
    assert_eq!(link_outcome(false, String::new()).unwrap_err().message(), "Failed to link program: ");
}

#[test]
fn asset_failures_name_the_path() {
    let shader = Failure::ShaderFile { path: "shaders/modelvertexshader.glsl".to_string() };
    assert_eq!(shader.message(), "Failed to read shader file: shaders/modelvertexshader.glsl");
    let mesh = Failure::MeshFile { path: "objs/a.obj".to_string() };
    assert_eq!(mesh.message(), "Failed to load OBJ file: objs/a.obj");
    let image = Failure::ImageFile { path: "objs/aTextures/AO.png".to_string() };
    assert_eq!(image.message(), "Failed to load image file: objs/aTextures/AO.png");
}

#[test]
fn present_failure_carries_the_reason() {
    let failure = Failure::Present { reason: "context lost".to_string() };
    assert_eq!(failure.message(), "Failed to present the frame: context lost");
}

#[test]
fn creation_failure_names_the_object_and_the_reason() {
    let failed: Result<u32, Failure> =
        creation_outcome(GpuObject::Shader, Err("out of memory".to_string()));
    assert_eq!(
        failed,
        Err(Failure::CreateObject { object: GpuObject::Shader, reason: "out of memory".to_string() })
    );
    assert_eq!(failed.unwrap_err().message(), "Cannot create shader: out of memory");
    assert_eq!(creation_outcome(GpuObject::Buffer, Ok(7u32)), Ok(7));
    let texture = Failure::CreateObject { object: GpuObject::Texture, reason: String::new() };
    assert_eq!(texture.message(), "Cannot create texture: ");
}

#[test]
fn object_kinds_have_names() {
    assert_eq!(GpuObject::Shader.name(), "shader");
    assert_eq!(GpuObject::Program.name(), "program");
    assert_eq!(GpuObject::VertexArray.name(), "vertex array");
    assert_eq!(GpuObject::Buffer.name(), "buffer");
    assert_eq!(GpuObject::Texture.name(), "texture");
}
