use gles_scene::constants::{
    GL_ARRAY_BUFFER, GL_CLAMP_TO_EDGE, GL_COLOR_ATTACHMENT0, GL_DEPTH_ATTACHMENT,
    GL_DEPTH_COMPONENT16, GL_FRAMEBUFFER, GL_NEAREST, GL_RENDERBUFFER, GL_STATIC_DRAW,
    GL_TEXTURE_2D,
};
use gles_scene::glesv2_raii::{
    check, ApiError, Buffer, Error, Framebuffer, PixelFormat, PixelType, Program, Renderbuffer,
    RenderbufferAttachment, Resource, ResourceKind, ResourceMapper, Shader, ShaderKind, SourceFile,
    Texture, TextureAttachment, UniformValue,
};
use gles_scene::{run, submit, Command, RenderPass, Scene};
use khronos_egl as egl;
use opengles::glesv2;

const PLATFORM_SURFACELESS: egl::Enum = 0x31DD;

const VERTEX: &[u8] = b"attribute vec3 a_Pos;
attribute vec2 a_TexCoord;
varying vec2 v_TexCoord;
void main() {
    v_TexCoord = a_TexCoord;
    gl_Position = vec4(a_Pos, 1.0);
}";

const PICTURE: &[u8] = b"precision mediump float;
void main() {
    gl_FragColor = vec4(1.0, 0.0, 1.0, 1.0);
}";

const POST: &[u8] = b"precision mediump float;
uniform sampler2D u_InputSampler0;
uniform vec2 u_Resolution;
varying vec2 v_TexCoord;
void main() {
    gl_FragColor = texture2D(u_InputSampler0, v_TexCoord) * step(0.0, u_Resolution.x);
}";

const MIX: &[u8] = b"precision mediump float;
uniform sampler2D u_InputSampler0;
uniform sampler2D u_InputSampler1;
uniform sampler2D u_InputSampler2;
uniform float u_Gain;
uniform vec4 u_Tint;
varying vec2 v_TexCoord;
void main() {
    gl_FragColor = u_Tint * u_Gain * (texture2D(u_InputSampler0, v_TexCoord)
        + texture2D(u_InputSampler1, v_TexCoord) + texture2D(u_InputSampler2, v_TexCoord));
}";

const BROKEN: &[u8] = b"precision mediump float;
void main() {
    gl_FragColor = vec4(1.0)
}";

const UNFED: &[u8] = b"precision mediump float;
varying vec2 v_Missing;
void main() {
    gl_FragColor = vec4(v_Missing, 0.0, 1.0);
}";

const BARE_VERTEX: &[u8] = b"void main() {
    gl_Position = vec4(0.0, 0.0, 0.0, 1.0);
}";

/// Makes a software rendering context current on this thread. Every test
/// here needs one, and fails where the machine offers none.
fn context() {
    if let Err(reason) = make_context() {
        panic!("no rendering context on this machine: {}", reason);
    }
}

fn make_context() -> Result<(), String> {
    let api = egl::Instance::new(egl::Static);
    let display = api
        .get_platform_display(PLATFORM_SURFACELESS, egl::DEFAULT_DISPLAY, &[egl::ATTRIB_NONE])
        .map_err(|e| format!("display: {:?}", e))?;
    api.initialize(display).map_err(|e| format!("initialize: {:?}", e))?;
    api.bind_api(egl::OPENGL_ES_API).map_err(|e| format!("bind_api: {:?}", e))?;
    let attributes = [
        egl::SURFACE_TYPE,
        egl::PBUFFER_BIT,
        egl::RENDERABLE_TYPE,
        egl::OPENGL_ES2_BIT,
        egl::RED_SIZE,
        8,
        egl::GREEN_SIZE,
        8,
        egl::BLUE_SIZE,
        8,
        egl::ALPHA_SIZE,
        8,
        egl::NONE,
    ];
    let config = api
        .choose_first_config(display, &attributes)
        .map_err(|e| format!("config: {:?}", e))?
        .ok_or("no config".to_string())?;
    let context = api
        .create_context(display, config, None, &[egl::CONTEXT_CLIENT_VERSION, 2, egl::NONE])
        .map_err(|e| format!("context: {:?}", e))?;
    let surface = api
        .create_pbuffer_surface(display, config, &[egl::WIDTH, 256, egl::HEIGHT, 256, egl::NONE])
        .map_err(|e| format!("surface: {:?}", e))?;
    api.make_current(display, Some(surface), Some(surface), Some(context))
        .map_err(|e| format!("make_current: {:?}", e))
}

fn file(path: &str, contents: &[u8]) -> SourceFile {
    SourceFile { path: path.to_string(), contents: contents.to_vec() }
}

/// Two triangles that cover the viewport, each vertex with its position and
/// its texture coordinate.
fn quad() -> Vec<u8> {
    let vertices: [f32; 30] = [
        -1.0, -1.0, 0.0, 0.0, 0.0, //
        1.0, -1.0, 0.0, 1.0, 0.0, //
        1.0, 1.0, 0.0, 1.0, 1.0, //
        -1.0, -1.0, 0.0, 0.0, 0.0, //
        1.0, 1.0, 0.0, 1.0, 1.0, //
        -1.0, 1.0, 0.0, 0.0, 1.0,
    ];
    vertices.iter().flat_map(|v| v.to_ne_bytes()).collect()
}

fn staged() -> Vec<SourceFile> {
    vec![
        file("./shader.vert", VERTEX),
        file("./shader.frag", PICTURE),
        file("./post.frag", POST),
        file("./mix.frag", MIX),
        file("./broken.frag", BROKEN),
        file("./quad.abuf", &quad()),
    ]
}

fn pixel(x: i32, y: i32) -> Vec<u8> {
    glesv2::read_pixels_rgba(x, y, 1, 1)
}

fn no_shader_or_program_is_left() -> bool {
    (1..64).all(|name| !glesv2::is_shader(name) && !glesv2::is_program(name))
}

fn solid_texture(color: [u8; 4]) -> Texture {
    let texture = Texture::new();
    submit(&texture.bind_command(GL_TEXTURE_2D));
    let mut data = Vec::new();
    for _ in 0..4 {
        data.extend_from_slice(&color);
    }
    Texture::image(GL_TEXTURE_2D, 0, PixelFormat::Rgba, 2, 2, PixelType::UnsignedByte, &data);
    run(&Texture::parameter_commands(
        GL_TEXTURE_2D,
        GL_NEAREST as i32,
        GL_NEAREST as i32,
        GL_CLAMP_TO_EDGE as i32,
        GL_CLAMP_TO_EDGE as i32,
    ));
    texture
}

#[test]
fn dropping_a_buffer_deletes_its_handle() {
    context();
    let buffer = Buffer::new();
    let handle = buffer.handle();
    assert_ne!(handle, 0);
    buffer.upload(GL_ARRAY_BUFFER, &[1u8, 2, 3], GL_STATIC_DRAW);
    assert!(glesv2::is_buffer(handle));
    assert_eq!(glesv2::get_buffer_parameteriv(GL_ARRAY_BUFFER, glesv2::GL_BUFFER_SIZE), 3);
    drop(buffer);
    assert!(!glesv2::is_buffer(handle));
    assert_eq!(check(), Ok(()));
}

#[test]
fn dropping_a_texture_or_renderbuffer_deletes_its_handle() {
    context();
    let texture = solid_texture([1, 2, 3, 4]);
    let renderbuffer = Renderbuffer::new();
    renderbuffer.storage(GL_DEPTH_COMPONENT16, 8, 8);
    let (t, r) = (texture.handle(), renderbuffer.handle());
    assert!(glesv2::is_texture(t));
    assert!(glesv2::is_renderbuffer(r));
    assert_eq!(
        glesv2::get_renderbuffer_parameteriv(0x8D41, glesv2::GL_RENDERBUFFER_WIDTH),
        8
    );
    drop(texture);
    assert!(!glesv2::is_texture(t));
    assert!(glesv2::is_renderbuffer(r));
    drop(renderbuffer);
    assert!(!glesv2::is_renderbuffer(r));
    assert_eq!(check(), Ok(()));
}

#[test]
fn dropping_a_shader_or_program_deletes_its_handle() {
    context();
    let shader = Shader::from_source(ShaderKind::Vertex, VERTEX).unwrap();
    let handle = shader.handle();
    assert!(glesv2::is_shader(handle));
    drop(shader);
    assert!(!glesv2::is_shader(handle));
    let program = Program::from_sources(VERTEX, PICTURE).unwrap();
    let handle = program.handle();
    assert!(glesv2::is_program(handle));
    drop(program);
    assert!(no_shader_or_program_is_left());
    assert_eq!(check(), Ok(()));
}

#[test]
fn dropping_a_framebuffer_deletes_what_it_owns() {
    context();
    let texture = solid_texture([9, 9, 9, 255]);
    let depth = Renderbuffer::new();
    depth.storage(GL_DEPTH_COMPONENT16, 2, 2);
    let (t, d) = (texture.handle(), depth.handle());
    let framebuffer = Framebuffer::new(
        Some(vec![(
            GL_COLOR_ATTACHMENT0,
            TextureAttachment { target: GL_TEXTURE_2D, texture, mipmap_level: 0 },
        )]),
        Some(vec![(GL_DEPTH_ATTACHMENT, RenderbufferAttachment { renderbuffer: depth })]),
    )
    .unwrap();
    let f = framebuffer.handle();
    assert!(glesv2::is_framebuffer(f));
    assert_eq!(framebuffer.texture_handle(GL_COLOR_ATTACHMENT0), Some(t));
    assert_eq!(framebuffer.renderbuffer_handle(GL_DEPTH_ATTACHMENT), Some(d));
    assert_eq!(framebuffer.texture_handle(GL_DEPTH_ATTACHMENT), None);
    drop(framebuffer);
    assert!(!glesv2::is_framebuffer(f));
    assert!(!glesv2::is_texture(t));
    assert!(!glesv2::is_renderbuffer(d));
    assert_eq!(check(), Ok(()));
}

#[test]
fn dropping_the_mapper_deletes_every_entry() {
    context();
    let mut mapper = ResourceMapper::new(staged());
    let program = mapper.program("./shader.vert ./post.frag").unwrap().handle();
    let buffer = mapper.buffer("./quad.abuf").unwrap().handle();
    assert!(glesv2::is_program(program));
    assert!(glesv2::is_buffer(buffer));
    drop(mapper);
    assert!(!glesv2::is_program(program));
    assert!(!glesv2::is_buffer(buffer));
    assert_eq!(check(), Ok(()));
}

#[test]
fn compile_error_carries_the_log_and_leaves_nothing_behind() {
    context();
    match Shader::from_source(ShaderKind::Fragment, BROKEN) {
        Err(Error::Compile(log)) => assert!(log.contains("error"), "log: {}", log),
        Err(other) => panic!("unexpected error {:?}", other),
        Ok(_) => panic!("the source compiled"),
    }
    assert!(no_shader_or_program_is_left());
    match Program::from_sources(VERTEX, BROKEN) {
        Err(Error::Compile(log)) => assert!(!log.is_empty()),
        Err(other) => panic!("unexpected error {:?}", other),
        Ok(_) => panic!("the program linked"),
    }
    assert!(no_shader_or_program_is_left());
}

#[test]
fn link_error_carries_the_log_and_leaves_nothing_behind() {
    context();
    match Program::from_sources(BARE_VERTEX, UNFED) {
        Err(Error::Link(log)) => assert!(!log.is_empty()),
        Err(other) => panic!("unexpected error {:?}", other),
        Ok(_) => panic!("the program linked"),
    }
    assert!(no_shader_or_program_is_left());
}

#[test]
fn program_finds_the_names_it_has_and_no_others() {
    context();
    let program = Program::from_sources(VERTEX, POST).unwrap();
    let position = program.attrib_location("a_Pos").unwrap();
    let tex_coord = program.attrib_location("a_TexCoord").unwrap();
    assert_ne!(position, tex_coord);
    assert!(program.uniform_location("u_InputSampler0").is_some());
    assert!(program.uniform_location("u_Resolution").is_some());
    assert_eq!(program.uniform_location("u_InputSampler1"), None);
    assert_eq!(program.uniform_location("u_Resolutio"), None);
    assert_eq!(program.uniform_location("u_Resolution\0"), None);
    assert_eq!(program.attrib_location("a_Normal"), None);
    assert_eq!(program.attrib_location("a_Pos\0x"), None);
    assert_eq!(check(), Ok(()));
}

#[test]
fn framebuffer_over_a_renderable_texture_is_complete() {
    context();
    let texture = solid_texture([0, 0, 0, 255]);
    let framebuffer = Framebuffer::new(
        Some(vec![(
            GL_COLOR_ATTACHMENT0,
            TextureAttachment { target: GL_TEXTURE_2D, texture, mipmap_level: 0 },
        )]),
        None,
    );
    assert!(framebuffer.is_ok());
    assert_eq!(glesv2::check_framebuffer_status(GL_FRAMEBUFFER), 0x8CD5);
}

#[test]
fn framebuffer_over_an_unsupported_format_is_refused() {
    context();
    let texture = Texture::new();
    submit(&texture.bind_command(GL_TEXTURE_2D));
    Texture::image(GL_TEXTURE_2D, 0, PixelFormat::Luminance, 4, 4, PixelType::UnsignedByte, &[]);
    let handle = texture.handle();
    let result = Framebuffer::new(
        Some(vec![(
            GL_COLOR_ATTACHMENT0,
            TextureAttachment { target: GL_TEXTURE_2D, texture, mipmap_level: 0 },
        )]),
        None,
    );
    match result {
        Err(Error::IncompleteFramebuffer(status)) => assert_ne!(status, 0x8CD5),
        Err(other) => panic!("unexpected error {:?}", other),
        Ok(_) => panic!("the framebuffer was complete"),
    }
    assert!((1..16).all(|name| !glesv2::is_framebuffer(name)));
    assert!(!glesv2::is_texture(handle));
}

#[test]
fn same_key_resolves_to_the_same_program() {
    context();
    let mut mapper = ResourceMapper::new(staged());
    let first = mapper.get_or_create("./shader.vert ./post.frag").unwrap().handle();
    assert!(glesv2::is_program(first));
    let second = mapper.get_or_create("./shader.vert ./post.frag").unwrap().handle();
    assert_eq!(first, second);
    assert_eq!(mapper.len(), 1);
    let other = mapper.program("./shader.vert ./shader.frag").unwrap().handle();
    assert_ne!(first, other);
    assert_eq!(mapper.len(), 2);
    assert!(matches!(mapper.get("./shader.vert ./post.frag"), Some(Resource::Program(_))));
    assert_eq!(mapper.program("./shader.vert ./post.frag").unwrap().handle(), first);
}

#[test]
fn program_that_fails_is_not_cached_and_is_tried_again() {
    context();
    let mut mapper = ResourceMapper::new(staged());
    assert!(matches!(mapper.get_or_create("./shader.vert ./broken.frag"), Err(Error::Compile(_))));
    assert_eq!(mapper.len(), 0);
    assert!(matches!(mapper.get_or_create("./shader.vert ./broken.frag"), Err(Error::Compile(_))));
    assert_eq!(mapper.len(), 0);
    assert!(no_shader_or_program_is_left());
}

#[test]
fn buffer_from_the_cache_holds_the_staged_bytes() {
    context();
    let mut mapper = ResourceMapper::new(staged());
    let buffer = mapper.buffer("./quad.abuf").unwrap();
    buffer.bind();
    assert_eq!(glesv2::get_buffer_parameteriv(GL_ARRAY_BUFFER, glesv2::GL_BUFFER_SIZE), 120);
}

#[test]
fn pass_sets_each_sampler_to_the_unit_of_its_input() {
    context();
    let mut resources = ResourceMapper::new(staged());
    let pass = RenderPass::new(16, 16, "./mix.frag").unwrap();
    let first = solid_texture([10, 0, 0, 255]);
    let second = solid_texture([0, 20, 0, 255]);
    let gain = UniformValue::Float(1.0f32.to_bits());
    let one = 1.0f32.to_bits();
    let tint = UniformValue::Vec4(one, one, one, one);
    let drawn = pass.render(
        &mut resources,
        (16, 16),
        &[first.handle(), second.handle()],
        &[("u_Gain", gain), ("u_Tint", tint)],
    );
    assert_eq!(drawn, Ok(()));
    let program = resources.program(pass.shader_path()).unwrap();
    for unit in 0..3 {
        let name = format!("u_InputSampler{}", unit);
        let location = program.uniform_location(&name).unwrap();
        assert_eq!(glesv2::get_uniformiv(program.handle(), location), unit);
    }
    let location = program.uniform_location("u_Gain").unwrap();
    assert_eq!(glesv2::get_uniformfv(program.handle(), location), 1.0);
    assert_eq!(glesv2::get_integerv(glesv2::GL_ACTIVE_TEXTURE), 0x84C2);
    assert_eq!(glesv2::get_integerv(glesv2::GL_TEXTURE_BINDING_2D) as u32, second.handle());
    assert_eq!(check(), Ok(()));
}

#[test]
fn pass_draws_the_sum_of_its_inputs() {
    context();
    let mut resources = ResourceMapper::new(staged());
    let pass = RenderPass::new(16, 16, "./mix.frag").unwrap();
    let first = solid_texture([51, 0, 0, 255]);
    let second = solid_texture([0, 102, 0, 255]);
    let one = 1.0f32.to_bits();
    let half = 0.5f32.to_bits();
    submit(&Command::BindFramebuffer { target: GL_FRAMEBUFFER, framebuffer: 0 });
    let drawn = pass.render(
        &mut resources,
        (16, 16),
        &[first.handle(), second.handle()],
        &[("u_Gain", UniformValue::Float(one)), ("u_Tint", UniformValue::Vec4(one, half, one, one))],
    );
    assert_eq!(drawn, Ok(()));
    assert_eq!(pixel(8, 8), vec![51, 51, 0, 255]);
    assert_eq!(check(), Ok(()));
}

#[test]
fn pass_fails_on_a_name_that_its_program_lacks() {
    context();
    let mut resources = ResourceMapper::new(staged());
    let pass = RenderPass::new(16, 16, "./post.frag").unwrap();
    assert_eq!(
        pass.render(&mut resources, (16, 16), &[], &[("u_Gain", UniformValue::Float(0))]),
        Err(Error::MissingUniform("u_Gain".to_string()))
    );
    let extra = solid_texture([0, 0, 0, 0]);
    assert_eq!(
        pass.render(&mut resources, (16, 16), &[extra.handle()], &[]),
        Err(Error::MissingUniform("u_InputSampler1".to_string()))
    );
    let picture = RenderPass::new(16, 16, "./shader.frag").unwrap();
    assert_eq!(
        picture.render(&mut resources, (16, 16), &[], &[]),
        Err(Error::MissingUniform("u_InputSampler0".to_string()))
    );
    assert_eq!(check(), Ok(()));
}

#[test]
fn pass_fails_on_a_key_that_describes_nothing() {
    context();
    let mut resources = ResourceMapper::new(staged());
    let pass = RenderPass::new(16, 16, "./none.frag").unwrap();
    assert_eq!(pass.shader_path(), "./shader.vert ./none.frag");
    assert_eq!(
        pass.render(&mut resources, (16, 16), &[], &[]),
        Err(Error::MissingResource("./none.frag".to_string()))
    );
    let spaced = RenderPass::new(16, 16, "./a b.frag").unwrap();
    assert_eq!(
        spaced.render(&mut resources, (16, 16), &[], &[]),
        Err(Error::InvalidDescriptor("./shader.vert ./a b.frag".to_string()))
    );
    assert_eq!(resources.len(), 0);
}

#[test]
fn scene_draws_frames_and_is_torn_down_without_error() {
    context();
    let mut scene = Scene::new(256, 256, staged()).unwrap();
    assert_eq!(scene.resolution, (256, 256));
    assert_eq!(scene.resources.len(), 1);
    assert_eq!(check(), Ok(()));

    assert_eq!(scene.render(f32::sin(0.0).to_bits(), &[]), Ok(()));
    assert_eq!(pixel(0, 0), vec![0, 255, 0, 255]);
    assert_eq!(pixel(255, 255), vec![0, 255, 0, 255]);
    assert_eq!(pixel(128, 100), vec![255, 0, 255, 255]);

    assert_eq!(scene.render(f32::sin(3.14159).to_bits(), &[]), Ok(()));
    assert_eq!(pixel(0, 0), vec![0, 255, 0, 255]);

    assert_eq!(scene.render(f32::sin(3.14159 / 2.0).to_bits(), &[]), Ok(()));
    assert_eq!(pixel(0, 0), vec![255, 255, 0, 255]);
    assert_eq!(scene.resources.len(), 3);

    let target = scene.post_pass().fbo().handle();
    drop(scene);
    submit(&Command::UseProgram { program: 0 });
    assert!(!glesv2::is_framebuffer(target));
    assert!(no_shader_or_program_is_left());
    assert!((1..16).all(|name| !glesv2::is_buffer(name) && !glesv2::is_texture(name)));
    assert_eq!(check(), Ok(()));
}

#[test]
fn scene_without_its_shaders_is_not_made() {
    context();
    assert_eq!(
        Scene::new(64, 64, vec![file("./quad.abuf", &quad())]).err(),
        Some(Error::MissingResource("./shader.vert".to_string()))
    );
    assert_eq!(
        Scene::new(64, 64, vec![file("./shader.vert", VERTEX)]).err(),
        Some(Error::MissingResource("./shader.frag".to_string()))
    );
    assert!((1..16).all(|name| !glesv2::is_buffer(name) && !glesv2::is_texture(name)));
    assert!(no_shader_or_program_is_left());
}

#[test]
fn scene_with_a_shader_that_does_not_compile_is_not_made() {
    context();
    let files = vec![
        file("./shader.vert", VERTEX),
        file("./shader.frag", BROKEN),
        file("./post.frag", POST),
        file("./quad.abuf", &quad()),
    ];
    let expected = match Shader::from_source(ShaderKind::Fragment, BROKEN) {
        Err(Error::Compile(log)) => log,
        _ => panic!("the source compiled"),
    };
    match Scene::new(64, 64, files) {
        Err(Error::Compile(log)) => {
            assert!(!log.is_empty());
            assert_eq!(log, expected);
        },
        Err(other) => panic!("unexpected error {:?}", other),
        Ok(_) => panic!("the scene was made"),
    }
    assert!(no_shader_or_program_is_left());
    assert!((1..16).all(|name| !glesv2::is_buffer(name) && !glesv2::is_texture(name)));
    assert!((1..16).all(|name| !glesv2::is_framebuffer(name)));
}

#[test]
fn scene_with_a_program_that_does_not_link_is_not_made() {
    context();
    let files = vec![
        file("./shader.vert", BARE_VERTEX),
        file("./shader.frag", UNFED),
        file("./post.frag", POST),
        file("./quad.abuf", &quad()),
    ];
    match Scene::new(64, 64, files) {
        Err(Error::Link(log)) => assert!(!log.is_empty()),
        Err(other) => panic!("unexpected error {:?}", other),
        Ok(_) => panic!("the scene was made"),
    }
    assert!(no_shader_or_program_is_left());
    assert!((1..16).all(|name| !glesv2::is_buffer(name) && !glesv2::is_texture(name)));
}

#[test]
fn scene_holds_its_program_from_the_start_and_constructs_nothing_after_a_frame() {
    context();
    submit(&Command::ClearColor { red: 0, green: 0, blue: 0, alpha: 0 });
    submit(&Command::Clear { mask: 0x4000 });
    let mut scene = Scene::new(32, 16, staged()).unwrap();
    assert_eq!(scene.resources.len(), 1);
    let picture = scene.resources.get("./shader.vert ./shader.frag").unwrap().handle();
    assert_eq!(scene.render(0, &[]), Ok(()));
    assert_eq!(pixel(0, 0), vec![0, 255, 0, 255]);
    assert_eq!(pixel(31, 15), vec![0, 255, 0, 255]);
    assert_eq!(pixel(32, 15), vec![0, 0, 0, 0]);
    assert_eq!(pixel(31, 16), vec![0, 0, 0, 0]);
    assert_eq!(scene.resources.len(), 3);
    let quad = scene.resources.get("./quad.abuf").unwrap().handle();
    let post = scene.resources.get("./shader.vert ./post.frag").unwrap().handle();
    assert_eq!(scene.render(0, &[]), Ok(()));
    assert_eq!(scene.resources.len(), 3);
    assert_eq!(scene.resources.get("./shader.vert ./shader.frag").unwrap().handle(), picture);
    assert_eq!(scene.resources.get("./quad.abuf").unwrap().handle(), quad);
    assert_eq!(scene.resources.get("./shader.vert ./post.frag").unwrap().handle(), post);
}

#[test]
fn pass_reports_a_missing_uniform_before_it_resolves_the_quad() {
    context();
    let mut resources =
        ResourceMapper::new(vec![file("./shader.vert", VERTEX), file("./post.frag", POST)]);
    let pass = RenderPass::new(16, 16, "./post.frag").unwrap();
    assert_eq!(
        pass.render(&mut resources, (16, 16), &[], &[("u_Gain", UniformValue::Float(0))]),
        Err(Error::MissingUniform("u_Gain".to_string()))
    );
    assert_eq!(resources.len(), 1);
    assert_eq!(
        pass.render(&mut resources, (16, 16), &[], &[]),
        Err(Error::MissingResource("./quad.abuf".to_string()))
    );
    assert_eq!(resources.len(), 1);
    let mut staged = ResourceMapper::new(staged());
    assert_eq!(
        pass.render(&mut staged, (16, 16), &[], &[("u_Gain", UniformValue::Float(0))]),
        Err(Error::MissingUniform("u_Gain".to_string()))
    );
    assert!(staged.get("./quad.abuf").is_none());
}

#[test]
fn pass_target_is_an_rgb_texture_of_the_size_asked_for() {
    context();
    let pass = RenderPass::new(24, 8, "./post.frag").unwrap();
    let texture = pass.fbo().texture_handle(GL_COLOR_ATTACHMENT0).unwrap();
    assert_eq!(glesv2::get_integerv(glesv2::GL_TEXTURE_BINDING_2D) as u32, texture);
    assert_eq!(glesv2::get_tex_parameteriv(GL_TEXTURE_2D, 0x2801), 0x2600);
    assert_eq!(glesv2::get_tex_parameteriv(GL_TEXTURE_2D, 0x2800), 0x2600);
    assert_eq!(glesv2::get_tex_parameteriv(GL_TEXTURE_2D, 0x2802), 0x812F);
    assert_eq!(glesv2::get_tex_parameteriv(GL_TEXTURE_2D, 0x2803), 0x812F);
    assert_eq!(
        glesv2::get_framebuffer_attachment_parameteriv(GL_FRAMEBUFFER, GL_COLOR_ATTACHMENT0, 0x8CD1)
            as u32,
        texture
    );
    submit(&Command::Viewport { left: 0, bottom: 0, width: 24, height: 8 });
    submit(&Command::ClearColor { red: 0, green: 0, blue: 0, alpha: 0 });
    assert_eq!(glesv2::read_pixels_rgba(23, 7, 1, 1), vec![0, 0, 0, 255]);
    assert_eq!(check(), Ok(()));
}

#[test]
fn check_reports_an_error_once_and_then_none() {
    context();
    assert_eq!(check(), Ok(()));
    assert_eq!(check(), Ok(()));
    submit(&Command::Clear { mask: 0xFFFF_FFFF });
    assert_eq!(check(), Err(Error::GraphicsApi(ApiError::InvalidValue)));
    assert_eq!(check(), Ok(()));
    assert_eq!(check(), Ok(()));
    submit(&Command::ActiveTexture { unit: 0 });
    assert_eq!(check(), Err(Error::GraphicsApi(ApiError::InvalidEnum)));
    assert_eq!(check(), Ok(()));
}

#[test]
fn deleting_no_object_raises_no_error() {
    context();
    submit(&Command::DeleteBuffer { buffer: 0 });
    submit(&Command::DeleteTexture { texture: 0 });
    submit(&Command::DeleteRenderbuffer { renderbuffer: 0 });
    submit(&Command::DeleteFramebuffer { framebuffer: 0 });
    submit(&Command::DeleteShader { shader: 0 });
    submit(&Command::DeleteProgram { program: 0 });
    assert_eq!(check(), Ok(()));
}

#[test]
fn image_shorter_than_its_rows_is_padded_not_overrun() {
    context();
    let texture = Texture::new();
    submit(&texture.bind_command(GL_TEXTURE_2D));
    Texture::image(GL_TEXTURE_2D, 0, PixelFormat::Rgb, 3, 3, PixelType::UnsignedByte, &[255; 9]);
    Texture::image(GL_TEXTURE_2D, 0, PixelFormat::Rgba, 64, 64, PixelType::UnsignedByte, &[]);
    Texture::image(GL_TEXTURE_2D, 0, PixelFormat::Rgb, 5, 5, PixelType::UnsignedShort565, &[]);
    assert_eq!(check(), Ok(()));
}

fn texture_at(point: u32, level: i32) -> (u32, u32, TextureAttachment) {
    let texture = Texture::new();
    let handle = texture.handle();
    (point, handle, TextureAttachment { target: GL_TEXTURE_2D, texture, mipmap_level: level })
}

#[test]
fn buffer_owns_the_handle_it_was_given() {
    context();
    let buffer = Buffer::new();
    let handle = buffer.handle();
    assert_eq!(buffer.handle(), handle);
    assert_eq!(buffer.deletion(), Command::DeleteBuffer { buffer: handle });
    assert_eq!(
        buffer.bind_command(GL_ARRAY_BUFFER),
        Command::BindBuffer { target: 0x8892, buffer: handle }
    );
}

#[test]
fn buffer_can_be_bound_and_filled() {
    context();
    let buffer = Buffer::new();
    buffer.bind();
    buffer.upload(GL_ARRAY_BUFFER, &[1u8, 2, 3, 4], GL_STATIC_DRAW);
    buffer.upload(GL_ARRAY_BUFFER, &[0.5f32.to_bits(), 1.0f32.to_bits()], GL_STATIC_DRAW);
}

#[test]
fn each_wrapper_deletes_its_own_handle_once() {
    context();
    let texture = Texture::new();
    assert_eq!(texture.deletion(), Command::DeleteTexture { texture: texture.handle() });
    let renderbuffer = Renderbuffer::new();
    assert_eq!(
        renderbuffer.deletion(),
        Command::DeleteRenderbuffer { renderbuffer: renderbuffer.handle() }
    );
    drop(texture);
    drop(renderbuffer);
}

#[test]
fn every_command_can_be_submitted() {
    context();
    run(&vec![
        Command::ActiveTexture { unit: 0x84C0 },
        Command::AttachShader { program: 0, shader: 0 },
        Command::BindBuffer { target: GL_ARRAY_BUFFER, buffer: 0 },
        Command::BindFramebuffer { target: GL_FRAMEBUFFER, framebuffer: 0 },
        Command::BindRenderbuffer { target: GL_RENDERBUFFER, renderbuffer: 0 },
        Command::BindTexture { target: GL_TEXTURE_2D, texture: 0 },
        Command::Clear { mask: 0x4000 },
        Command::ClearColor { red: 0, green: 1.0f32.to_bits(), blue: 0, alpha: 1.0f32.to_bits() },
        Command::CompileShader { shader: 0 },
        Command::DrawArrays { mode: 4, first: 0, count: 0 },
        Command::EnableVertexAttribArray { index: 0 },
        Command::FramebufferRenderbuffer {
            target: GL_FRAMEBUFFER,
            attachment: GL_DEPTH_ATTACHMENT,
            renderbuffer_target: GL_RENDERBUFFER,
            renderbuffer: 0,
        },
        Command::FramebufferTexture2d {
            target: GL_FRAMEBUFFER,
            attachment: GL_COLOR_ATTACHMENT0,
            texture_target: GL_TEXTURE_2D,
            texture: 0,
            level: 0,
        },
        Command::LinkProgram { program: 0 },
        Command::RenderbufferStorage {
            target: GL_RENDERBUFFER,
            internal_format: GL_DEPTH_COMPONENT16,
            width: 4,
            height: 4,
        },
        Command::TexParameteri { target: GL_TEXTURE_2D, name: 0x2801, value: 0x2600 },
        Command::Uniform1i { location: 0, value: 1 },
        Command::Uniform1f { location: 0, x: 0 },
        Command::Uniform2f { location: 0, x: 0, y: 0 },
        Command::Uniform3f { location: 0, x: 0, y: 0, z: 0 },
        Command::Uniform4f { location: 0, x: 0, y: 0, z: 0, w: 0 },
        Command::Uniform2fFromInts { location: 0, first: 256, second: 256 },
        Command::UseProgram { program: 0 },
        Command::VertexAttribPointer {
            index: 0,
            size: 3,
            type_: 0x1406,
            normalized: false,
            stride: 0,
            offset: 0,
        },
        Command::Viewport { left: 0, bottom: 0, width: 16, height: 16 },
    ]);
}

#[test]
fn renderbuffer_storage_binds_first() {
    context();
    let renderbuffer = Renderbuffer::new();
    let handle = renderbuffer.handle();
    assert_eq!(
        renderbuffer.storage_commands(GL_DEPTH_COMPONENT16, 64, 32),
        vec![
            Command::BindRenderbuffer { target: 0x8D41, renderbuffer: handle },
            Command::RenderbufferStorage {
                target: 0x8D41,
                internal_format: 0x81A5,
                width: 64,
                height: 32
            },
        ]
    );
    renderbuffer.storage(GL_DEPTH_COMPONENT16, 64, 32);
}

#[test]
fn framebuffer_without_attachments_is_not_complete_either() {
    context();
    assert!(matches!(Framebuffer::new(None, None), Err(Error::IncompleteFramebuffer(_))));
}

#[test]
fn attachments_are_found_by_point() {
    context();
    let (p0, h0, a0) = texture_at(GL_COLOR_ATTACHMENT0, 0);
    let (p1, h1, a1) = texture_at(GL_DEPTH_ATTACHMENT, 2);
    let list = vec![(p0, a0), (p1, a1)];
    assert_eq!(Framebuffer::find_texture(&list, GL_COLOR_ATTACHMENT0), Some(h0));
    assert_eq!(Framebuffer::find_texture(&list, GL_DEPTH_ATTACHMENT), Some(h1));
    assert_eq!(Framebuffer::find_texture(&list, 0x8D20), None);
    assert_eq!(Framebuffer::find_texture(&[], GL_COLOR_ATTACHMENT0), None);
}

#[test]
fn last_attachment_given_for_a_point_stands() {
    context();
    let first = Texture::new();
    let second = Texture::new();
    let list = vec![
        (
            GL_COLOR_ATTACHMENT0,
            TextureAttachment { target: GL_TEXTURE_2D, texture: first, mipmap_level: 0 },
        ),
        (
            GL_COLOR_ATTACHMENT0,
            TextureAttachment { target: GL_TEXTURE_2D, texture: second, mipmap_level: 1 },
        ),
    ];
    let expected = list[1].1.texture.handle();
    assert_eq!(Framebuffer::find_texture(&list, GL_COLOR_ATTACHMENT0), Some(expected));
}

#[test]
fn renderbuffers_are_found_by_point() {
    context();
    let depth = Renderbuffer::new();
    let handle = depth.handle();
    let list = vec![(GL_DEPTH_ATTACHMENT, RenderbufferAttachment { renderbuffer: depth })];
    assert_eq!(Framebuffer::find_renderbuffer(&list, GL_DEPTH_ATTACHMENT), Some(handle));
    assert_eq!(Framebuffer::find_renderbuffer(&list, GL_COLOR_ATTACHMENT0), None);
}

#[test]
fn attach_commands_bind_then_attach_textures_then_renderbuffers() {
    context();
    let (p0, h0, a0) = texture_at(GL_COLOR_ATTACHMENT0, 0);
    let (p1, h1, a1) = texture_at(GL_COLOR_ATTACHMENT0, 3);
    let depth = Renderbuffer::new();
    let hd = depth.handle();
    let textures = vec![(p0, a0), (p1, a1)];
    let renderbuffers = vec![(GL_DEPTH_ATTACHMENT, RenderbufferAttachment { renderbuffer: depth })];
    assert_eq!(
        Framebuffer::attach_commands(11, &textures, &renderbuffers),
        vec![
            Command::BindFramebuffer { target: 0x8D40, framebuffer: 11 },
            Command::FramebufferTexture2d {
                target: 0x8D40,
                attachment: 0x8CE0,
                texture_target: 0x0DE1,
                texture: h0,
                level: 0
            },
            Command::FramebufferTexture2d {
                target: 0x8D40,
                attachment: 0x8CE0,
                texture_target: 0x0DE1,
                texture: h1,
                level: 3
            },
            Command::FramebufferRenderbuffer {
                target: 0x8D40,
                attachment: 0x8D00,
                renderbuffer_target: 0x8D41,
                renderbuffer: hd
            },
        ]
    );
}

#[test]
fn same_key_resolves_to_the_same_resource() {
    context();
    let mut mapper = ResourceMapper::new(staged());
    let first = mapper.get_or_create("./quad.abuf").unwrap().handle();
    assert_eq!(mapper.len(), 1);
    let second = mapper.get_or_create("./quad.abuf").unwrap().handle();
    assert_eq!(first, second);
    assert_eq!(mapper.len(), 1);
    let third = mapper.buffer("./quad.abuf").unwrap().handle();
    assert_eq!(first, third);
    assert_eq!(mapper.len(), 1);
}

#[test]
fn cached_resource_has_the_kind_of_its_descriptor() {
    context();
    let mut mapper = ResourceMapper::new(staged());
    assert_eq!(mapper.get_or_create("./quad.abuf").unwrap().kind(), ResourceKind::Buffer);
    assert!(matches!(mapper.get("./quad.abuf"), Some(Resource::Buffer(_))));
}

#[test]
fn different_keys_are_cached_side_by_side() {
    context();
    let mut mapper = ResourceMapper::new(staged());
    assert!(mapper.get_or_create("./quad.abuf").is_ok());
    assert!(mapper.get_or_create("./shader.vert ./shader.frag").is_ok());
    assert_eq!(mapper.len(), 2);
    assert!(mapper.get("./quad.abuf").is_some());
    assert!(mapper.get("./shader.vert ./shader.frag").is_some());
    assert!(mapper.get("./shader.vert ./post.frag").is_none());
}

#[test]
fn asking_for_a_program_under_a_buffer_key_fails() {
    context();
    let mut mapper = ResourceMapper::new(staged());
    assert_eq!(
        mapper.program("./quad.abuf").err(),
        Some(Error::InvalidDescriptor("./quad.abuf".to_string()))
    );
}

#[test]
fn last_file_given_for_a_path_stands() {
    context();
    let mut mapper =
        ResourceMapper::new(vec![file("./quad.abuf", &[1]), file("./quad.abuf", &[2, 3])]);
    mapper.buffer("./quad.abuf").unwrap().bind();
    assert_eq!(glesv2::get_buffer_parameteriv(GL_ARRAY_BUFFER, glesv2::GL_BUFFER_SIZE), 2);
    assert_eq!(mapper.len(), 1);
}

#[test]
fn pass_over_an_empty_target_is_refused() {
    context();
    match RenderPass::new(0, 16, "./post.frag") {
        Err(Error::IncompleteFramebuffer(status)) => assert_ne!(status, 0x8CD5),
        Err(other) => panic!("unexpected error {:?}", other),
        Ok(_) => panic!("the framebuffer was complete"),
    }
    assert!((1..16).all(|name| !glesv2::is_framebuffer(name) && !glesv2::is_texture(name)));
}

#[test]
fn scene_over_an_empty_target_is_refused() {
    context();
    assert!(matches!(Scene::new(0, 0, staged()), Err(Error::IncompleteFramebuffer(_))));
    assert!((1..16).all(|name| !glesv2::is_buffer(name) && !glesv2::is_texture(name)));
    assert!(no_shader_or_program_is_left());
}

#[test]
fn framebuffer_without_storage_behind_its_texture_is_refused() {
    context();
    let (point, handle, attachment) = texture_at(GL_COLOR_ATTACHMENT0, 0);
    match Framebuffer::new(Some(vec![(point, attachment)]), None) {
        Err(Error::IncompleteFramebuffer(status)) => assert_ne!(status, 0x8CD5),
        Err(other) => panic!("unexpected error {:?}", other),
        Ok(_) => panic!("the framebuffer was complete"),
    }
    assert!(!glesv2::is_texture(handle));
}

#[test]
fn check_twice_in_a_row_reports_no_error() {
    context();
    assert_eq!(check(), Ok(()));
    assert_eq!(check(), Ok(()));
}

#[test]
fn frame_that_fails_in_the_pass_leaves_no_error_flagged() {
    context();
    let files = vec![
        file("./shader.vert", VERTEX),
        file("./shader.frag", PICTURE),
        file("./post.frag", POST),
        file("./quad.abuf", &quad()),
    ];
    let mut scene = Scene::new(16, 16, files).unwrap();
    submit(&Command::Clear { mask: 0xFFFF_FFFF });
    assert_eq!(
        scene.render(0, &[("u_Gain", UniformValue::Float(0))]),
        Err(Error::MissingUniform("u_Gain".to_string()))
    );
    assert_eq!(check(), Ok(()));
    submit(&Command::Clear { mask: 0xFFFF_FFFF });
    assert_eq!(scene.render(0, &[]), Err(Error::GraphicsApi(ApiError::InvalidValue)));
    assert_eq!(scene.render(0, &[]), Ok(()));
}

#[test]
fn frame_fails_over_a_missing_file_only_as_the_lookup_refuses() {
    context();
    let files = vec![
        file("./shader.vert", VERTEX),
        file("./shader.frag", PICTURE),
        file("./quad.abuf", &quad()),
    ];
    let mut scene = Scene::new(16, 16, files).unwrap();
    assert_eq!(scene.render(0, &[]), Err(Error::MissingResource("./post.frag".to_string())));
    assert_eq!(scene.resources.len(), 1);
    let files = vec![
        file("./shader.vert", VERTEX),
        file("./shader.frag", PICTURE),
        file("./post.frag", POST),
    ];
    let mut scene = Scene::new(16, 16, files).unwrap();
    assert_eq!(scene.render(0, &[]), Err(Error::MissingResource("./quad.abuf".to_string())));
    assert_eq!(scene.resources.len(), 2);
    assert_eq!(check(), Ok(()));
}
