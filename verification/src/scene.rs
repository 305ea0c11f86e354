//! The scene: a test picture drawn into a post-processing pass, which is
//! then drawn to the display.

use crate::command::{run, Command};
use crate::constants::{
    GL_ARRAY_BUFFER, GL_COLOR_BUFFER_BIT, GL_FLOAT, GL_FRAMEBUFFER, GL_STATIC_DRAW, GL_TRIANGLES,
    NO_OBJECT,
};
use crate::glesv2_raii::buffer::Buffer;
use crate::glesv2_raii::error::{check, Error, ErrorView};
use crate::gl;
use crate::glesv2_raii::resource_mapper::{
    lemma_refusal_on_smaller_cache, lemma_typed_lookup, lookup_accounts_for, lookup_refusal,
    resolved_handle, ResourceId, ResourceKind, ResourceMapper, SourceFile,
};
use crate::table::last_wins;
use crate::glesv2_raii::texture::staging_len;
use crate::glesv2_raii::uniform_value::UniformValue;
use crate::glesv2_raii::descriptor::{lemma_first_space_is, parse_key, DescriptorView};
use crate::render_pass::{lemma_pass_key, pass_key, quad_key, RenderPass};
use vstd::prelude::*;
use vstd::string::StringExecFns;

verus! {

/// The bit pattern of the float 0.0.
pub const ZERO: u32 = 0;

/// The bit pattern of the float 0.5.
pub const HALF: u32 = 0x3F00_0000;

/// The bit pattern of the float -0.5.
pub const MINUS_HALF: u32 = 0xBF00_0000;

/// The bit pattern of the float 1.0.
pub const ONE: u32 = 0x3F80_0000;

/// The key of the program that draws the test picture.
pub open spec fn picture_key() -> Seq<char> {
    "./shader.vert ./shader.frag"@
}

/// The key of the picture's program describes the program linked from
/// `./shader.vert` and `./shader.frag`.
pub proof fn lemma_picture_key()
    ensures
        parse_key(picture_key()) == Some(
            DescriptorView::Program { vertex: "./shader.vert"@, fragment: "./shader.frag"@ },
        ),
        picture_key() == pass_key("./shader.frag"@),
{
    reveal_strlit("./shader.vert ./shader.frag");
    reveal_strlit("./shader.vert ");
    reveal_strlit("./shader.frag");
    let fragment = "./shader.frag"@;
    assert(fragment.len() == 13);
    lemma_first_space_is(fragment, 13);
    assert(picture_key() =~= pass_key(fragment));
    lemma_pass_key(fragment);
}

/// The three vertices of the test triangle, each as the bit patterns of its
/// x, y and z.
pub open spec fn triangle_vertices() -> Seq<u32> {
    seq![MINUS_HALF, MINUS_HALF, ZERO, HALF, MINUS_HALF, ZERO, ZERO, HALF, ZERO]
}

/// The commands that draw the test picture into the framebuffer `target`
/// and then make the display the target again.
///
/// The picture is cleared to a colour whose red component has the bit pattern
/// `red`, with full green, no blue and full alpha; the triangle in `buffer` is
/// drawn with `program`, its positions fed to the attribute at `position`.
pub open spec fn picture_plan(target: u32, red: u32, buffer: u32, position: u32, program: u32) -> Seq<
    Command,
> {
    seq![
        Command::BindFramebuffer { target: GL_FRAMEBUFFER, framebuffer: target },
        Command::ClearColor { red, green: ONE, blue: ZERO, alpha: ONE },
        Command::Clear { mask: GL_COLOR_BUFFER_BIT },
        Command::BindBuffer { target: GL_ARRAY_BUFFER, buffer },
        Command::EnableVertexAttribArray { index: position },
        Command::VertexAttribPointer {
            index: position,
            size: 3,
            type_: GL_FLOAT,
            normalized: false,
            stride: 0,
            offset: 0,
        },
        Command::UseProgram { program },
        Command::DrawArrays { mode: GL_TRIANGLES, first: 0, count: 3 },
        Command::BindFramebuffer { target: GL_FRAMEBUFFER, framebuffer: NO_OBJECT },
    ]
}

/// What drawing the test picture comes to, given where the program keeps
/// the attribute `a_Pos`: without a location, or with a negative one, the draw
/// fails for want of the attribute; else the commands are those of
/// `picture_plan`.
pub open spec fn picture_outcome(
    target: u32,
    red: u32,
    buffer: u32,
    position: Option<i32>,
    program: u32,
) -> Result<Seq<Command>, ErrorView> {
    match position {
        Some(index) => if index >= 0 {
            Ok(picture_plan(target, red, buffer, index as u32, program))
        } else {
            Err(ErrorView::MissingAttribute("a_Pos"@))
        },
        None => Err(ErrorView::MissingAttribute("a_Pos"@)),
    }
}

/// The commands that start a scene of `width` by `height` pixels: they set
/// the viewport to the whole target and bind the buffer `triangle` for the
/// upload that follows.
pub open spec fn setup_plan(width: i32, height: i32, triangle: u32) -> Seq<Command> {
    seq![
        Command::Viewport { left: 0, bottom: 0, width, height },
        Command::BindBuffer { target: GL_ARRAY_BUFFER, buffer: triangle },
    ]
}

/// What starting a scene submits: the commands, and then one upload to the
/// buffer bound to `target` of `vertices`, with the usage hint `usage`.
pub struct Setup {
    pub commands: Vec<Command>,
    pub target: u32,
    pub vertices: Vec<u32>,
    pub usage: u32,
}

/// All that a frame is drawn from: the resource cache, the test triangle and
/// the post-processing pass.
///
/// Dropping the scene drops all of them, which deletes every handle they
/// own.
pub struct Scene {
    pub resolution: (i32, i32),
    pub resources: ResourceMapper,
    buffer: Buffer,
    post_pass: RenderPass,
}

impl Scene {
    /// The size of the target, in pixels: what the field `resolution` holds.
    pub closed spec fn size(&self) -> (i32, i32) {
        self.resolution
    }

    /// The resource cache: what the field `resources` holds.
    pub closed spec fn cache(&self) -> ResourceMapper {
        self.resources
    }

    /// The handle of the buffer that holds the test triangle.
    pub closed spec fn triangle(&self) -> u32 {
        self.buffer.id()
    }

    /// The post-processing pass.
    pub closed spec fn pass(&self) -> RenderPass {
        self.post_pass
    }

    /// The post-processing pass.
    pub fn post_pass(&self) -> (pass: &RenderPass)
        ensures
            *pass == self.pass(),
    {
        &self.post_pass
    }

    /// The vertices of the test triangle.
    pub fn triangle_data() -> (vertices: Vec<u32>)
        ensures
            vertices@ == triangle_vertices(),
    {
        let mut vertices: Vec<u32> = Vec::new();
        vertices.push(MINUS_HALF);
        vertices.push(MINUS_HALF);
        vertices.push(ZERO);
        vertices.push(HALF);
        vertices.push(MINUS_HALF);
        vertices.push(ZERO);
        vertices.push(ZERO);
        vertices.push(HALF);
        vertices.push(ZERO);
        assert(vertices@ =~= triangle_vertices());
        vertices
    }

    /// The commands that draw the test picture; `picture_plan` says which.
    pub fn picture_commands(target: u32, red: u32, buffer: u32, position: u32, program: u32) -> (commands:
        Vec<Command>)
        ensures
            commands@ == picture_plan(target, red, buffer, position, program),
    {
        let mut commands: Vec<Command> = Vec::new();
        commands.push(Command::BindFramebuffer { target: GL_FRAMEBUFFER, framebuffer: target });
        commands.push(Command::ClearColor { red, green: ONE, blue: ZERO, alpha: ONE });
        commands.push(Command::Clear { mask: GL_COLOR_BUFFER_BIT });
        commands.push(Command::BindBuffer { target: GL_ARRAY_BUFFER, buffer });
        commands.push(Command::EnableVertexAttribArray { index: position });
        commands.push(
            Command::VertexAttribPointer {
                index: position,
                size: 3,
                type_: GL_FLOAT,
                normalized: false,
                stride: 0,
                offset: 0,
            },
        );
        commands.push(Command::UseProgram { program });
        commands.push(Command::DrawArrays { mode: GL_TRIANGLES, first: 0, count: 3 });
        commands.push(Command::BindFramebuffer { target: GL_FRAMEBUFFER, framebuffer: NO_OBJECT });
        assert(commands@ =~= picture_plan(target, red, buffer, position, program));
        commands
    }

    /// The commands that draw the test picture, or the failure for want of
    /// the attribute `a_Pos`; `picture_outcome` says which.
    pub fn picture_draw(
        target: u32,
        red: u32,
        buffer: u32,
        position: Option<i32>,
        program: u32,
    ) -> (result: Result<Vec<Command>, Error>)
        ensures
            match result {
                Ok(commands) => Ok::<Seq<Command>, ErrorView>(commands@),
                Err(e) => Err::<Seq<Command>, ErrorView>(e@),
            } == picture_outcome(target, red, buffer, position, program),
    {
        match position {
            Some(index) => {
                if index >= 0 {
                    Ok(Scene::picture_commands(target, red, buffer, index as u32, program))
                } else {
                    Err(Error::MissingAttribute(String::from_str("a_Pos")))
                }
            },
            None => Err(Error::MissingAttribute(String::from_str("a_Pos"))),
        }
    }

    /// What starting a scene of `width` by `height` pixels submits: the
    /// viewport over the whole target, and the test triangle uploaded once, as
    /// vertex data that will not change, to the buffer `triangle`.
    pub fn setup(width: i32, height: i32, triangle: u32) -> (setup: Setup)
        ensures
            setup.commands@ == setup_plan(width, height, triangle),
            setup.target == GL_ARRAY_BUFFER,
            setup.vertices@ == triangle_vertices(),
            setup.usage == GL_STATIC_DRAW,
    {
        let mut commands: Vec<Command> = Vec::new();
        commands.push(Command::Viewport { left: 0, bottom: 0, width, height });
        commands.push(Command::BindBuffer { target: GL_ARRAY_BUFFER, buffer: triangle });
        assert(commands@ =~= setup_plan(width, height, triangle));
        Setup {
            commands,
            target: GL_ARRAY_BUFFER,
            vertices: Scene::triangle_data(),
            usage: GL_STATIC_DRAW,
        }
    }

    /// Constructs the scene for a target of `width` by `height` pixels:
    /// submits what `setup` says, makes a cache over `files`, resolves the
    /// picture's program through it, and makes the post-processing pass with
    /// the fragment shader `./post.frag`.
    ///
    /// If the cache is bound to refuse the picture's program, this fails with
    /// that refusal, and it fails over an unstaged file or a key that is no
    /// descriptor in no other case. Whether the program compiles and links, and
    /// whether the
    /// pass's framebuffer is complete, is for the graphics context to say; the
    /// first of these that fails is returned. Whatever fails, no scene is
    /// returned, and all that was made is dropped.
    pub fn new(width: i32, height: i32, files: Vec<SourceFile>) -> (result: Result<Scene, Error>)
        requires
            staging_len(width as int, height as int) <= usize::MAX,
        ensures
            match result {
                Ok(scene) => {
                    &&& scene.size() == (width, height)
                    &&& scene.cache().file_list() == Seq::new(
                        files@.len(),
                        |i: int| (files@[i].path@, files@[i].contents@),
                    )
                    &&& scene.cache().cache().contains_key(picture_key())
                    &&& scene.cache().cache()[picture_key()].kind == ResourceKind::Program
                    &&& forall|key: Seq<char>| #[trigger]
                        scene.cache().cache().contains_key(key) ==> key == picture_key()
                    &&& scene.pass().key() == pass_key("./post.frag"@)
                },
                Err(e) => e@ is IncompleteFramebuffer || e@ is InvalidDescriptor || e@
                    is MissingResource || e@ is Compile || e@ is Link,
            },
            lookup_refusal(
                last_wins(Seq::new(files@.len(), |i: int| (files@[i].path@, files@[i].contents@))),
                Map::<Seq<char>, ResourceId>::empty(),
                picture_key(),
            ) matches Some(refusal) ==> (result matches Err(e) && e@ == refusal),
            match result {
                Ok(_) => true,
                Err(e) => e@ is InvalidDescriptor || e@ is MissingResource ==> lookup_refusal(
                    last_wins(
                        Seq::new(files@.len(), |i: int| (files@[i].path@, files@[i].contents@)),
                    ),
                    Map::<Seq<char>, ResourceId>::empty(),
                    picture_key(),
                ) == Some(e@),
            },
    {
        proof {
            lemma_picture_key();
        }
        let buffer = Buffer::new();
        let setup = Scene::setup(width, height, buffer.handle());
        run(&setup.commands);
        gl::buffer_data(setup.target, setup.vertices.as_slice(), setup.usage);
        let mut resources = ResourceMapper::new(files);
        let ghost staged = resources.staged();
        let ghost before = resources.cache();
        let resolved = match resources.program("./shader.vert ./shader.frag") {
            Ok(program) => Ok((program.handle(), ())),
            Err(e) => Err(e),
        };
        proof {
            lemma_typed_lookup(
                ResourceKind::Program,
                staged,
                before,
                picture_key(),
                resolved_handle(resolved),
                resources.cache(),
            );
        }
        match resolved {
            Ok(_) => {},
            Err(e) => {
                return Err(e);
            },
        }
        let post_pass = match RenderPass::new(width, height, "./post.frag") {
            Ok(pass) => pass,
            Err(e) => {
                return Err(e);
            },
        };
        Ok(Scene { resolution: (width, height), resources, buffer, post_pass })
    }

    /// Draws one frame: the test picture into the post-processing pass's
    /// framebuffer, then the pass to the display with `uniforms` applied, and
    /// then reads the API's error flag, once, whatever was drawn.
    ///
    /// `red` is the bit pattern of the red component that the picture is
    /// cleared to. The first step that fails is the failure of the frame: the
    /// lookup of the picture's program, the attribute `a_Pos`, the pass, and
    /// last an error that the API flagged. What the graphics context answers
    /// decides the result. Whatever it answers: if the cache is bound to refuse
    /// the picture's program, the frame fails with that refusal before
    /// anything is drawn; the frame fails over an unstaged file or a key that
    /// is no descriptor only where one of its three lookups accounts for it;
    /// the resolution and the staged files stay as they are; the cache keeps
    /// what it held and gains at most the two programs and the quad; and after
    /// a frame that was drawn all three are cached, so that the next frame
    /// constructs nothing.
    pub fn render(&mut self, red: u32, uniforms: &[(&str, UniformValue)]) -> (result: Result<
        (),
        Error,
    >)
        ensures
            final(self).size() == old(self).size(),
            final(self).triangle() == old(self).triangle(),
            final(self).pass() == old(self).pass(),
            final(self).cache().file_list() == old(self).cache().file_list(),
            old(self).cache().cache().submap_of(final(self).cache().cache()),
            forall|key: Seq<char>| #[trigger]
                final(self).cache().cache().contains_key(key) ==> old(
                    self,
                ).cache().cache().contains_key(key) || key == picture_key() || key == old(
                    self,
                ).pass().key() || key == quad_key(),
            lookup_refusal(
                old(self).cache().staged(),
                old(self).cache().cache(),
                picture_key(),
            ) matches Some(refusal) ==> final(self).cache().cache() == old(self).cache().cache()
                && (result matches Err(e) && e@ == refusal),
            match result {
                Ok(()) => {
                    &&& final(self).cache().cache().contains_key(picture_key())
                    &&& final(self).cache().cache()[picture_key()].kind == ResourceKind::Program
                    &&& final(self).cache().cache().contains_key(old(self).pass().key())
                    &&& final(self).cache().cache()[old(self).pass().key()].kind
                        == ResourceKind::Program
                    &&& final(self).cache().cache().contains_key(quad_key())
                    &&& final(self).cache().cache()[quad_key()].kind == ResourceKind::Buffer
                },
                Err(e) => {
                    &&& e@ is InvalidDescriptor || e@ is MissingResource || e@ is Compile || e@
                        is Link || e@ is MissingUniform || e@ is MissingAttribute || e@
                        is GraphicsApi
                    &&& e@ is InvalidDescriptor || e@ is MissingResource ==> lookup_accounts_for(
                        ResourceKind::Program,
                        old(self).cache().staged(),
                        old(self).cache().cache(),
                        picture_key(),
                        e@,
                        final(self).cache().cache(),
                    ) || lookup_accounts_for(
                        ResourceKind::Program,
                        old(self).cache().staged(),
                        old(self).cache().cache(),
                        old(self).pass().key(),
                        e@,
                        final(self).cache().cache(),
                    ) || lookup_accounts_for(
                        ResourceKind::Buffer,
                        old(self).cache().staged(),
                        old(self).cache().cache(),
                        quad_key(),
                        e@,
                        final(self).cache().cache(),
                    )
                },
            },
    {
        let ghost staged = self.resources.staged();
        let ghost before = self.resources.cache();
        let resolved = match self.resources.program("./shader.vert ./shader.frag") {
            Ok(program) => Ok((program.handle(), program.attrib_location("a_Pos"))),
            Err(e) => Err(e),
        };
        let ghost between = self.resources.cache();
        proof {
            lemma_typed_lookup(
                ResourceKind::Program,
                staged,
                before,
                picture_key(),
                resolved_handle(resolved),
                between,
            );
        }
        let drawn = match resolved {
            Ok((program, position)) => {
                match Scene::picture_draw(
                    self.post_pass.fbo().handle(),
                    red,
                    self.buffer.handle(),
                    position,
                    program,
                ) {
                    Ok(commands) => {
                        run(&commands);
                        let no_textures: Vec<u32> = Vec::new();
                        let passed = self.post_pass.render(
                            &mut self.resources,
                            self.resolution,
                            no_textures.as_slice(),
                            uniforms,
                        );
                        proof {
                            let after = self.resources.cache();
                            vstd::map_lib::lemma_submap_of_trans(before, between, after);
                            if lookup_refusal(staged, between, self.post_pass.key()) is Some {
                                lemma_refusal_on_smaller_cache(
                                    staged,
                                    before,
                                    between,
                                    self.post_pass.key(),
                                );
                            }
                            if lookup_refusal(staged, between, quad_key()) is Some {
                                lemma_refusal_on_smaller_cache(staged, before, between, quad_key());
                            }
                            assert(between.dom().contains(picture_key()));
                            assert(after.dom().contains(picture_key()));
                            assert(after[picture_key()] == between[picture_key()]);
                        }
                        passed
                    },
                    Err(e) => Err(e),
                }
            },
            Err(e) => Err(e),
        };
        let flagged = check();
        match drawn {
            Ok(()) => flagged,
            Err(e) => Err(e),
        }
    }
}

} // verus!
