//! A render pass: a framebuffer of its own, the key of its program, and the
//! commands that draw it.

use crate::command::{run, Command};
use crate::constants::{
    GL_ARRAY_BUFFER, GL_CLAMP_TO_EDGE, GL_COLOR_ATTACHMENT0, GL_FLOAT, GL_NEAREST, GL_TEXTURE0,
    GL_TEXTURE_2D, GL_TRIANGLES,
};
use crate::glesv2_raii::descriptor::{
    buffer_extension, first_space, lemma_first_space_is, lemma_program_key, parse_key,
    DescriptorView,
};
use crate::glesv2_raii::error::{Error, ErrorView};
use crate::glesv2_raii::framebuffer::{Framebuffer, TextureAttachment};
use crate::glesv2_raii::program::Program;
use crate::glesv2_raii::resource_mapper::{
    lemma_refusal_on_smaller_cache, lemma_typed_lookup, lookup_accounts_for, lookup_refusal,
    resolved_handle, ResourceKind, ResourceMapper,
};
use crate::glesv2_raii::texture::{
    parameter_plan, staging_len, Image, PixelFormat, PixelType, Texture,
};
use crate::glesv2_raii::uniform_value::UniformValue;
use crate::text::{decimal, push_decimal};
use vstd::prelude::*;
use vstd::string::StringExecFns;

verus! {

/// The bytes between one vertex of the quad and the next: three floats of
/// position and two of texture coordinate.
pub const QUAD_STRIDE: i32 = 20;

/// The byte at which the texture coordinate of a quad vertex starts.
pub const QUAD_TEX_COORD_OFFSET: u32 = 12;

/// The number of vertices of the quad: two triangles.
pub const QUAD_VERTICES: i32 = 6;

/// The name of the sampler uniform of texture unit `unit`.
pub open spec fn sampler_name(unit: nat) -> Seq<char> {
    "u_InputSampler"@ + decimal(unit)
}

/// The key of the quad that every pass draws.
pub open spec fn quad_key() -> Seq<char> {
    "./quad.abuf"@
}

/// The key of the program of a pass with the fragment shader at
/// `frag_path`.
pub open spec fn pass_key(frag_path: Seq<char>) -> Seq<char> {
    "./shader.vert "@ + frag_path
}

/// The key of the quad describes a buffer.
pub proof fn lemma_quad_key()
    ensures
        parse_key(quad_key()) == Some(DescriptorView::Buffer { path: quad_key() }),
{
    reveal_strlit("./quad.abuf");
    let key = quad_key();
    assert(key.len() == 11);
    lemma_first_space_is(key, 11);
    assert(key.skip(11 - 5) =~= buffer_extension());
}

/// The key of a pass describes the program linked from `./shader.vert` and
/// the pass's fragment shader, if the path of that shader is not empty and
/// holds no space.
pub proof fn lemma_pass_key(frag_path: Seq<char>)
    requires
        frag_path.len() > 0,
        first_space(frag_path) == frag_path.len(),
    ensures
        parse_key(pass_key(frag_path)) == Some(
            DescriptorView::Program { vertex: "./shader.vert"@, fragment: frag_path },
        ),
{
    reveal_strlit("./shader.vert ");
    reveal_strlit("./shader.vert");
    let vertex = "./shader.vert"@;
    assert(vertex.len() == 13);
    lemma_first_space_is(vertex, 13);
    assert(pass_key(frag_path) =~= vertex + seq![' '] + frag_path);
    lemma_program_key(vertex, frag_path);
}

/// Where a program keeps what a pass sets and feeds: each as the API
/// answered, with `None` for a name that the program does not have.
pub struct Locations {
    /// The sampler uniform of each texture unit, from unit 0.
    pub samplers: Vec<Option<i32>>,
    /// The uniform `u_Resolution`.
    pub resolution: Option<i32>,
    /// The uniform of each named value, in the order of the values.
    pub uniforms: Vec<Option<i32>>,
    /// The attribute `a_Pos`.
    pub position: Option<u32>,
    /// The attribute `a_TexCoord`.
    pub tex_coord: Option<u32>,
}

/// [`Locations`] with each list as a sequence.
pub struct LocationsView {
    pub samplers: Seq<Option<i32>>,
    pub resolution: Option<i32>,
    pub uniforms: Seq<Option<i32>>,
    pub position: Option<u32>,
    pub tex_coord: Option<u32>,
}

impl View for Locations {
    type V = LocationsView;

    open spec fn view(&self) -> LocationsView {
        LocationsView {
            samplers: self.samplers@,
            resolution: self.resolution,
            uniforms: self.uniforms@,
            position: self.position,
            tex_coord: self.tex_coord,
        }
    }
}

/// The named values with each name as a sequence of characters.
pub open spec fn named_values(uniforms: Seq<(&str, UniformValue)>) -> Seq<
    (Seq<char>, UniformValue),
> {
    Seq::new(uniforms.len(), |i: int| (uniforms[i].0@, uniforms[i].1))
}

/// The location at index `i` of a list; an index past the end of the list
/// has none.
pub open spec fn slot(locations: Seq<Option<i32>>, i: int) -> Option<i32> {
    if 0 <= i < locations.len() {
        locations[i]
    } else {
        None
    }
}

/// The first `len` locations of a list, with none where the list has run
/// out.
pub open spec fn slots(locations: Seq<Option<i32>>, len: nat) -> Seq<Option<i32>> {
    Seq::new(len, |i: int| slot(locations, i))
}

/// The index of the first location that is missing, or the length of the
/// list where none is.
pub open spec fn first_missing(locations: Seq<Option<i32>>) -> int
    decreases locations.len(),
{
    if locations.len() == 0 {
        0
    } else if locations[0] is None {
        0
    } else {
        1 + first_missing(locations.skip(1))
    }
}

/// The texture that texture unit `unit` samples: the pass's own on unit 0,
/// then the inputs in order.
pub open spec fn input_texture(own: u32, textures: Seq<u32>, unit: int) -> u32 {
    if unit == 0 {
        own
    } else {
        textures[unit - 1]
    }
}

/// The `k`-th of the commands that bind the input textures: three for each
/// unit, which select the unit, bind its texture and set its sampler uniform
/// to the unit's number.
pub open spec fn sampler_command(
    own: u32,
    textures: Seq<u32>,
    samplers: Seq<Option<i32>>,
    k: int,
) -> Command {
    let unit = k / 3;
    if k % 3 == 0 {
        Command::ActiveTexture { unit: (GL_TEXTURE0 + unit) as u32 }
    } else if k % 3 == 1 {
        Command::BindTexture { target: GL_TEXTURE_2D, texture: input_texture(own, textures, unit) }
    } else {
        Command::Uniform1i { location: samplers[unit].unwrap(), value: unit as i32 }
    }
}

/// The commands that bind the pass's own texture and the inputs to texture
/// units 0, 1, 2 and so on.
pub open spec fn sampler_plan(own: u32, textures: Seq<u32>, samplers: Seq<Option<i32>>) -> Seq<
    Command,
> {
    Seq::new(3 * (textures.len() + 1), |k: int| sampler_command(own, textures, samplers, k))
}

/// The command that sets the resolution uniform, where the program has one.
pub open spec fn resolution_plan(location: Option<i32>, resolution: (i32, i32)) -> Seq<Command> {
    match location {
        Some(location) => seq![
            Command::Uniform2fFromInts { location, first: resolution.0, second: resolution.1 },
        ],
        None => Seq::empty(),
    }
}

/// The commands that set each named value at its location.
pub open spec fn uniform_plan(
    uniforms: Seq<(Seq<char>, UniformValue)>,
    locations: Seq<Option<i32>>,
) -> Seq<Command> {
    Seq::new(uniforms.len(), |k: int| uniforms[k].1.spec_command(locations[k].unwrap()))
}

/// The commands that bind the quad, describe its two attributes and draw
/// it.
pub open spec fn quad_plan(quad: u32, position: u32, tex_coord: u32) -> Seq<Command> {
    seq![
        Command::BindBuffer { target: GL_ARRAY_BUFFER, buffer: quad },
        Command::EnableVertexAttribArray { index: position },
        Command::VertexAttribPointer {
            index: position,
            size: 3,
            type_: GL_FLOAT,
            normalized: false,
            stride: QUAD_STRIDE,
            offset: 0,
        },
        Command::EnableVertexAttribArray { index: tex_coord },
        Command::VertexAttribPointer {
            index: tex_coord,
            size: 2,
            type_: GL_FLOAT,
            normalized: false,
            stride: QUAD_STRIDE,
            offset: QUAD_TEX_COORD_OFFSET,
        },
        Command::DrawArrays { mode: GL_TRIANGLES, first: 0, count: QUAD_VERTICES },
    ]
}

/// The first uniform that a program lacks of those that a draw sets: the
/// sampler of a texture unit from 0 to `inputs`, or else a named value.
///
/// The sampler of texture unit `i` is looked for at index `i` of
/// `locations.samplers`, the `i`-th named value at index `i` of
/// `locations.uniforms`; a list that is too short lacks the rest.
pub open spec fn missing_uniform(
    inputs: nat,
    uniforms: Seq<(Seq<char>, UniformValue)>,
    locations: LocationsView,
) -> Option<Seq<char>> {
    let samplers = slots(locations.samplers, inputs + 1);
    let values = slots(locations.uniforms, uniforms.len());
    if first_missing(samplers) < samplers.len() {
        Some(sampler_name(first_missing(samplers) as nat))
    } else if first_missing(values) < values.len() {
        Some(uniforms[first_missing(values)].0)
    } else {
        None
    }
}

/// What drawing a pass comes to, given where the program keeps its names.
///
/// The first name that the program lacks fails the draw: a uniform, as
/// `missing_uniform` says, then the two attributes of the quad. Otherwise the
/// commands are: use the program; bind the textures; set the resolution, if
/// the program has that uniform; set the named values; draw the quad.
pub open spec fn draw_plan(
    program: u32,
    own: u32,
    textures: Seq<u32>,
    resolution: (i32, i32),
    uniforms: Seq<(Seq<char>, UniformValue)>,
    quad: u32,
    locations: LocationsView,
) -> Result<Seq<Command>, ErrorView> {
    let samplers = slots(locations.samplers, textures.len() + 1);
    let values = slots(locations.uniforms, uniforms.len());
    match missing_uniform(textures.len(), uniforms, locations) {
        Some(name) => Err(ErrorView::MissingUniform(name)),
        None => if locations.position is None {
            Err(ErrorView::MissingAttribute("a_Pos"@))
        } else if locations.tex_coord is None {
            Err(ErrorView::MissingAttribute("a_TexCoord"@))
        } else {
            Ok(
                seq![Command::UseProgram { program }] + sampler_plan(own, textures, samplers)
                    + resolution_plan(locations.resolution, resolution) + uniform_plan(
                    uniforms,
                    values,
                ) + quad_plan(quad, locations.position.unwrap(), locations.tex_coord.unwrap()),
            )
        },
    }
}

/// The commands that prepare the colour texture `texture` of a pass: they
/// bind it and set nearest filtering and clamped edges.
pub open spec fn target_plan(texture: u32) -> Seq<Command> {
    seq![Command::BindTexture { target: GL_TEXTURE_2D, texture }] + parameter_plan(
        GL_TEXTURE_2D,
        GL_NEAREST as i32,
        GL_NEAREST as i32,
        GL_CLAMP_TO_EDGE as i32,
        GL_CLAMP_TO_EDGE as i32,
    )
}

/// What preparing the colour texture of a pass submits: the commands, and
/// then the definition of `image` with no pixel data.
pub struct TargetSetup {
    pub commands: Vec<Command>,
    pub image: Image,
}

/// The first missing location lies within the list or at its end, it is
/// missing, and nothing before it is.
pub proof fn lemma_first_missing(locations: Seq<Option<i32>>)
    ensures
        0 <= first_missing(locations) <= locations.len(),
        first_missing(locations) < locations.len() ==> locations[first_missing(locations)] is None,
        forall|i: int| 0 <= i < first_missing(locations) ==> locations[i] is Some,
    decreases locations.len(),
{
    if locations.len() > 0 && locations[0] is Some {
        lemma_first_missing(locations.skip(1));
        assert forall|i: int| 0 <= i < first_missing(locations) implies locations[i] is Some by {
            if i > 0 {
                assert(locations.skip(1)[i - 1] == locations[i]);
            }
        }
    }
}

/// Input `unit` is bound to texture unit `unit`, and its sampler uniform is
/// set to `unit`: the three commands stand one after the other in every plan
/// that draws, for the pass's own texture (unit 0) and for every input.
pub proof fn lemma_sampler_round_trip(
    program: u32,
    own: u32,
    textures: Seq<u32>,
    resolution: (i32, i32),
    uniforms: Seq<(Seq<char>, UniformValue)>,
    quad: u32,
    locations: LocationsView,
    unit: int,
)
    requires
        textures.len() < i32::MAX,
        0 <= unit <= textures.len(),
        draw_plan(program, own, textures, resolution, uniforms, quad, locations) is Ok,
    ensures
        ({
            let commands = draw_plan(
                program,
                own,
                textures,
                resolution,
                uniforms,
                quad,
                locations,
            )->Ok_0;
            &&& 3 * unit + 3 < commands.len()
            &&& commands[3 * unit + 1] == (Command::ActiveTexture {
                unit: (GL_TEXTURE0 + unit) as u32,
            })
            &&& commands[3 * unit + 2] == (Command::BindTexture {
                target: GL_TEXTURE_2D,
                texture: input_texture(own, textures, unit),
            })
            &&& slot(locations.samplers, unit) is Some
            &&& commands[3 * unit + 3] == (Command::Uniform1i {
                location: slot(locations.samplers, unit).unwrap(),
                value: unit as i32,
            })
            &&& unit as i32 == unit
        }),
{
    let found = slots(locations.samplers, textures.len() + 1);
    lemma_first_missing(found);
    assert(found[unit] == slot(locations.samplers, unit));
    let samplers = sampler_plan(own, textures, found);
    assert(samplers.len() == 3 * (textures.len() + 1));
    assert(samplers[3 * unit] == sampler_command(own, textures, found, 3 * unit));
    assert(samplers[3 * unit + 1] == sampler_command(own, textures, found, 3 * unit + 1));
    assert(samplers[3 * unit + 2] == sampler_command(own, textures, found, 3 * unit + 2));
}

/// The name of the sampler uniform of texture unit `unit`.
pub fn sampler_uniform(unit: u32) -> (name: String)
    ensures
        name@ == sampler_name(unit as nat),
{
    let mut name = String::from_str("u_InputSampler");
    push_decimal(&mut name, unit);
    name
}

/// A pass that draws a quad with a program of its own into a framebuffer of
/// its own, sized to the target resolution, whose one colour attachment later
/// passes can sample.
pub struct RenderPass {
    fbo: Framebuffer,
    shader_path: String,
}

impl RenderPass {
    #[verifier::type_invariant]
    spec fn has_color_texture(&self) -> bool {
        self.fbo.textures().contains_key(GL_COLOR_ATTACHMENT0)
    }

    /// The framebuffer that the pass owns.
    pub closed spec fn framebuffer(&self) -> Framebuffer {
        self.fbo
    }

    /// The descriptor key of the pass's program.
    pub closed spec fn key(&self) -> Seq<char> {
        self.shader_path@
    }

    /// The framebuffer that the pass owns.
    pub fn fbo(&self) -> (fbo: &Framebuffer)
        ensures
            *fbo == self.framebuffer(),
            fbo.textures().contains_key(GL_COLOR_ATTACHMENT0),
    {
        proof {
            use_type_invariant(self);
        }
        &self.fbo
    }

    /// The descriptor key of the pass's program.
    pub fn shader_path(&self) -> (key: &str)
        ensures
            key@ == self.key(),
    {
        self.shader_path.as_str()
    }

    /// What preparing the colour texture `texture` of a pass for a target of
    /// `w` by `h` pixels submits: the texture is bound, given nearest
    /// filtering and clamped edges, and then defined at level 0 as an RGB image
    /// of bytes, `w` by `h` pixels.
    pub fn target_setup(texture: u32, w: i32, h: i32) -> (setup: TargetSetup)
        ensures
            setup.commands@ == target_plan(texture),
            setup.image == (Image {
                target: GL_TEXTURE_2D,
                level: 0,
                format: PixelFormat::Rgb,
                width: w,
                height: h,
                type_: PixelType::UnsignedByte,
            }),
    {
        let mut commands: Vec<Command> = Vec::new();
        commands.push(Command::BindTexture { target: GL_TEXTURE_2D, texture });
        let mut parameters = Texture::parameter_commands(
            GL_TEXTURE_2D,
            GL_NEAREST as i32,
            GL_NEAREST as i32,
            GL_CLAMP_TO_EDGE as i32,
            GL_CLAMP_TO_EDGE as i32,
        );
        commands.append(&mut parameters);
        assert(commands@ =~= target_plan(texture));
        TargetSetup {
            commands,
            image: Image {
                target: GL_TEXTURE_2D,
                level: 0,
                format: PixelFormat::Rgb,
                width: w,
                height: h,
                type_: PixelType::UnsignedByte,
            },
        }
    }

    /// Creates a pass for a target of `w` by `h` pixels whose program is
    /// linked from `./shader.vert` and the fragment shader at `frag_path`.
    ///
    /// The colour texture is prepared as `target_setup` says and becomes the
    /// one colour attachment of the framebuffer. Whether the framebuffer is
    /// complete is for the graphics context to say; if it is not, this fails
    /// with the status reported. The program is not resolved here.
    pub fn new(w: i32, h: i32, frag_path: &str) -> (result: Result<RenderPass, Error>)
        requires
            staging_len(w as int, h as int) <= usize::MAX,
        ensures
            match result {
                Ok(pass) => {
                    &&& pass.key() == pass_key(frag_path@)
                    &&& pass.framebuffer().texture_list().len() == 1
                    &&& pass.framebuffer().texture_list()[0].0 == GL_COLOR_ATTACHMENT0
                    &&& pass.framebuffer().texture_list()[0].1.target == GL_TEXTURE_2D
                    &&& pass.framebuffer().texture_list()[0].1.level == 0
                    &&& pass.framebuffer().renderbuffer_list().len() == 0
                },
                Err(e) => e@ is IncompleteFramebuffer,
            },
    {
        let fbo_texture = Texture::new();
        let setup = RenderPass::target_setup(fbo_texture.handle(), w, h);
        run(&setup.commands);
        let no_data: Vec<u8> = Vec::new();
        Texture::image(
            setup.image.target,
            setup.image.level,
            setup.image.format,
            setup.image.width,
            setup.image.height,
            setup.image.type_,
            no_data.as_slice(),
        );
        let mut attachments: Vec<(u32, TextureAttachment)> = Vec::new();
        attachments.push(
            (
                GL_COLOR_ATTACHMENT0,
                TextureAttachment { target: GL_TEXTURE_2D, texture: fbo_texture, mipmap_level: 0 },
            ),
        );
        let fbo = match Framebuffer::new(Some(attachments), None) {
            Ok(fbo) => fbo,
            Err(e) => {
                return Err(e);
            },
        };
        let mut shader_path = String::from_str("./shader.vert ");
        shader_path.append(frag_path);
        proof {
            crate::table::lemma_last_wins_step(fbo.texture_list(), GL_COLOR_ATTACHMENT0);
        }
        Ok(RenderPass { fbo, shader_path })
    }

    /// Asks `program` where it keeps the sampler uniforms of texture units 0
    /// to `inputs`, the resolution uniform, each named value and the two
    /// attributes of the quad.
    pub fn locate(program: &Program, inputs: usize, uniforms: &[(&str, UniformValue)]) -> (locations:
        Locations)
        requires
            inputs < i32::MAX,
        ensures
            locations@.samplers.len() == inputs + 1,
            locations@.uniforms.len() == uniforms@.len(),
    {
        let mut samplers: Vec<Option<i32>> = Vec::new();
        let mut unit: usize = 0;
        while unit <= inputs
            invariant
                unit <= inputs + 1,
                inputs < i32::MAX,
                samplers@.len() == unit,
            decreases inputs + 1 - unit,
        {
            let name = sampler_uniform(unit as u32);
            samplers.push(program.uniform_location(name.as_str()));
            unit += 1;
        }
        let resolution = program.uniform_location("u_Resolution");
        let mut locations: Vec<Option<i32>> = Vec::new();
        let mut i: usize = 0;
        while i < uniforms.len()
            invariant
                i <= uniforms@.len(),
                locations@.len() == i,
            decreases uniforms.len() - i,
        {
            locations.push(program.uniform_location(uniforms[i].0));
            i += 1;
        }
        let position = match program.attrib_location("a_Pos") {
            Some(index) => Some(index as u32),
            None => None,
        };
        let tex_coord = match program.attrib_location("a_TexCoord") {
            Some(index) => Some(index as u32),
            None => None,
        };
        Locations { samplers, resolution, uniforms: locations, position, tex_coord }
    }

    /// The location at index `i` of a list; an index past the end of the
    /// list has none.
    fn slot_at(locations: &Vec<Option<i32>>, i: usize) -> (found: Option<i32>)
        ensures
            found == slot(locations@, i as int),
    {
        if i < locations.len() {
            locations[i]
        } else {
            None
        }
    }

    /// The name of the first uniform that the program lacks of those that a
    /// draw with `inputs` input textures and the named values sets, if it
    /// lacks any; `missing_uniform` says which.
    pub fn missing_uniform_name(
        inputs: usize,
        uniforms: &[(&str, UniformValue)],
        locations: &Locations,
    ) -> (name: Option<String>)
        requires
            inputs < i32::MAX,
        ensures
            match name {
                Some(text) => missing_uniform(inputs as nat, named_values(uniforms@), locations@)
                    == Some(text@),
                None => missing_uniform(inputs as nat, named_values(uniforms@), locations@)
                    is None,
            },
    {
        let ghost names = named_values(uniforms@);
        let ghost samplers = slots(locations@.samplers, inputs as nat + 1);
        let ghost values = slots(locations@.uniforms, uniforms@.len());
        proof {
            lemma_first_missing(samplers);
            lemma_first_missing(values);
        }
        let mut unit: usize = 0;
        while unit <= inputs
            invariant
                unit <= inputs + 1,
                inputs < i32::MAX,
                samplers == slots(locations@.samplers, inputs as nat + 1),
                unit <= first_missing(samplers),
            decreases inputs + 1 - unit,
        {
            proof {
                lemma_first_missing(samplers);
                assert(samplers[unit as int] == slot(locations@.samplers, unit as int));
            }
            if RenderPass::slot_at(&locations.samplers, unit).is_none() {
                return Some(sampler_uniform(unit as u32));
            }
            unit += 1;
        }
        proof {
            lemma_first_missing(samplers);
        }
        let mut i: usize = 0;
        while i < uniforms.len()
            invariant
                i <= uniforms@.len(),
                names == named_values(uniforms@),
                samplers == slots(locations@.samplers, inputs as nat + 1),
                values == slots(locations@.uniforms, uniforms@.len()),
                first_missing(samplers) == samplers.len(),
                i <= first_missing(values),
            decreases uniforms.len() - i,
        {
            proof {
                lemma_first_missing(values);
                assert(values[i as int] == slot(locations@.uniforms, i as int));
            }
            if RenderPass::slot_at(&locations.uniforms, i).is_none() {
                return Some(String::from_str(uniforms[i].0));
            }
            i += 1;
        }
        proof {
            lemma_first_missing(values);
        }
        None
    }

    /// The commands that draw a pass, or the first name that its program
    /// lacks; `draw_plan` says which.
    pub fn draw_commands(
        program: u32,
        own: u32,
        textures: &[u32],
        resolution: (i32, i32),
        uniforms: &[(&str, UniformValue)],
        quad: u32,
        locations: &Locations,
    ) -> (result: Result<Vec<Command>, Error>)
        requires
            textures@.len() < i32::MAX,
        ensures
            match result {
                Ok(commands) => Ok::<Seq<Command>, ErrorView>(commands@),
                Err(e) => Err::<Seq<Command>, ErrorView>(e@),
            } == draw_plan(
                program,
                own,
                textures@,
                resolution,
                named_values(uniforms@),
                quad,
                locations@,
            ),
    {
        let ghost names = named_values(uniforms@);
        let ghost samplers = slots(locations@.samplers, textures@.len() + 1);
        let ghost values = slots(locations@.uniforms, uniforms@.len());
        match RenderPass::missing_uniform_name(textures.len(), uniforms, locations) {
            Some(name) => {
                return Err(Error::MissingUniform(name));
            },
            None => {},
        }
        proof {
            lemma_first_missing(samplers);
            lemma_first_missing(values);
        }
        let position = match locations.position {
            Some(index) => index,
            None => {
                return Err(Error::MissingAttribute(String::from_str("a_Pos")));
            },
        };
        let tex_coord = match locations.tex_coord {
            Some(index) => index,
            None => {
                return Err(Error::MissingAttribute(String::from_str("a_TexCoord")));
            },
        };
        let ghost head = seq![Command::UseProgram { program }];
        let mut commands: Vec<Command> = Vec::new();
        commands.push(Command::UseProgram { program });
        let mut unit: usize = 0;
        while unit <= textures.len()
            invariant
                unit <= textures@.len() + 1,
                textures@.len() < i32::MAX,
                samplers == slots(locations@.samplers, textures@.len() + 1),
                forall|k: int| 0 <= k < samplers.len() ==> samplers[k] is Some,
                head == seq![Command::UseProgram { program }],
                commands@ == head + Seq::new(
                    3 * unit as nat,
                    |k: int| sampler_command(own, textures@, samplers, k),
                ),
            decreases textures.len() + 1 - unit,
        {
            let texture = if unit == 0 {
                own
            } else {
                textures[unit - 1]
            };
            assert(samplers[unit as int] is Some);
            let location = RenderPass::slot_at(&locations.samplers, unit).unwrap();
            commands.push(Command::ActiveTexture { unit: GL_TEXTURE0 + unit as u32 });
            commands.push(Command::BindTexture { target: GL_TEXTURE_2D, texture });
            commands.push(Command::Uniform1i { location, value: unit as i32 });
            unit += 1;
            assert(commands@ =~= head + Seq::new(
                3 * unit as nat,
                |k: int| sampler_command(own, textures@, samplers, k),
            ));
        }
        assert(commands@ =~= head + sampler_plan(own, textures@, samplers));
        match locations.resolution {
            Some(location) => {
                commands.push(
                    Command::Uniform2fFromInts {
                        location,
                        first: resolution.0,
                        second: resolution.1,
                    },
                );
            },
            None => {},
        }
        assert(commands@ =~= head + sampler_plan(own, textures@, samplers) + resolution_plan(
            locations@.resolution,
            resolution,
        ));
        let ghost front = commands@;
        let mut i: usize = 0;
        while i < uniforms.len()
            invariant
                i <= uniforms@.len(),
                names == named_values(uniforms@),
                values == slots(locations@.uniforms, uniforms@.len()),
                forall|k: int| 0 <= k < values.len() ==> values[k] is Some,
                commands@ == front + Seq::new(
                    i as nat,
                    |k: int| names[k].1.spec_command(values[k].unwrap()),
                ),
            decreases uniforms.len() - i,
        {
            assert(values[i as int] is Some);
            let location = RenderPass::slot_at(&locations.uniforms, i).unwrap();
            commands.push(uniforms[i].1.command(location));
            i += 1;
            assert(commands@ =~= front + Seq::new(
                i as nat,
                |k: int| names[k].1.spec_command(values[k].unwrap()),
            ));
        }
        assert(commands@ =~= front + uniform_plan(names, values));
        let ghost body = commands@;
        commands.push(Command::BindBuffer { target: GL_ARRAY_BUFFER, buffer: quad });
        commands.push(Command::EnableVertexAttribArray { index: position });
        commands.push(
            Command::VertexAttribPointer {
                index: position,
                size: 3,
                type_: GL_FLOAT,
                normalized: false,
                stride: QUAD_STRIDE,
                offset: 0,
            },
        );
        commands.push(Command::EnableVertexAttribArray { index: tex_coord });
        commands.push(
            Command::VertexAttribPointer {
                index: tex_coord,
                size: 2,
                type_: GL_FLOAT,
                normalized: false,
                stride: QUAD_STRIDE,
                offset: QUAD_TEX_COORD_OFFSET,
            },
        );
        commands.push(Command::DrawArrays { mode: GL_TRIANGLES, first: 0, count: QUAD_VERTICES });
        assert(commands@ =~= body + quad_plan(quad, position, tex_coord));
        Ok(commands)
    }

    /// Draws the pass: resolves its program and the quad through
    /// `resources`, asks the program for its locations, and submits the
    /// commands of `draw_plan` with the pass's own colour texture on unit 0
    /// and `textures` on the units after it.
    ///
    /// The steps fail in this order: the program's lookup, a uniform that
    /// the program lacks, the quad's lookup, an attribute that the program
    /// lacks. Which program and buffer the keys resolve to, and where the
    /// program keeps its names, is for the graphics context to say. Whatever
    /// it says: a key that the cache is bound to refuse fails the draw with
    /// that refusal, and a draw fails as over no descriptor or an unstaged file
    /// only where one of its two lookups accounts for it; a draw that fails on
    /// a uniform does not resolve the quad;
    /// nothing is submitted unless every step worked; the cache keeps what it
    /// held and gains at most the pass's program and the quad; and after a
    /// draw both are cached. The bind state of the context is not restored.
    pub fn render(
        &self,
        resources: &mut ResourceMapper,
        resolution: (i32, i32),
        textures: &[u32],
        uniforms: &[(&str, UniformValue)],
    ) -> (result: Result<(), Error>)
        requires
            textures@.len() < i32::MAX,
        ensures
            final(resources).file_list() == old(resources).file_list(),
            old(resources).cache().submap_of(final(resources).cache()),
            forall|key: Seq<char>| #[trigger]
                final(resources).cache().contains_key(key) ==> old(resources).cache().contains_key(
                    key,
                ) || key == self.key() || key == quad_key(),
            lookup_refusal(old(resources).staged(), old(resources).cache(), self.key()) matches Some(
                refusal,
            ) ==> final(resources).cache() == old(resources).cache() && (result matches Err(e)
                && e@ == refusal),
            match result {
                Ok(()) => {
                    &&& final(resources).cache().contains_key(self.key())
                    &&& final(resources).cache()[self.key()].kind == ResourceKind::Program
                    &&& final(resources).cache().contains_key(quad_key())
                    &&& final(resources).cache()[quad_key()].kind == ResourceKind::Buffer
                },
                Err(e) => e@ is InvalidDescriptor || e@ is MissingResource || e@ is Compile || e@
                    is Link || e@ is MissingUniform || e@ is MissingAttribute,
            },
            match result {
                Ok(()) => true,
                Err(e) => e@ is InvalidDescriptor || e@ is MissingResource ==> lookup_accounts_for(
                    ResourceKind::Program,
                    old(resources).staged(),
                    old(resources).cache(),
                    self.key(),
                    e@,
                    final(resources).cache(),
                ) || lookup_accounts_for(
                    ResourceKind::Buffer,
                    old(resources).staged(),
                    old(resources).cache(),
                    quad_key(),
                    e@,
                    final(resources).cache(),
                ),
            },
            result matches Err(e) && e@ is MissingUniform ==> {
                &&& final(resources).cache().contains_key(self.key())
                &&& forall|key: Seq<char>| #[trigger]
                    final(resources).cache().contains_key(key) ==> old(
                        resources,
                    ).cache().contains_key(key) || key == self.key()
            },
    {
        proof {
            use_type_invariant(self);
        }
        let own = match self.fbo.texture_handle(GL_COLOR_ATTACHMENT0) {
            Some(texture) => texture,
            None => vstd::pervasive::unreached(),
        };
        let ghost staged = resources.staged();
        let ghost before = resources.cache();
        let resolved = match resources.program(self.shader_path.as_str()) {
            Ok(program) => Ok(
                (program.handle(), RenderPass::locate(program, textures.len(), uniforms)),
            ),
            Err(e) => Err(e),
        };
        let ghost between = resources.cache();
        proof {
            lemma_typed_lookup(
                ResourceKind::Program,
                staged,
                before,
                self.key(),
                resolved_handle(resolved),
                between,
            );
        }
        let (program, locations) = match resolved {
            Ok(pair) => pair,
            Err(e) => {
                return Err(e);
            },
        };
        match RenderPass::missing_uniform_name(textures.len(), uniforms, &locations) {
            Some(name) => {
                return Err(Error::MissingUniform(name));
            },
            None => {},
        }
        let quad = match resources.buffer("./quad.abuf") {
            Ok(buffer) => Ok((buffer.handle(), ())),
            Err(e) => Err(e),
        };
        proof {
            lemma_typed_lookup(
                ResourceKind::Buffer,
                staged,
                between,
                quad_key(),
                resolved_handle(quad),
                resources.cache(),
            );
            if lookup_refusal(staged, between, quad_key()) is Some {
                lemma_refusal_on_smaller_cache(staged, before, between, quad_key());
            }
        }
        let quad = match quad {
            Ok(pair) => pair.0,
            Err(e) => {
                return Err(e);
            },
        };
        match RenderPass::draw_commands(
            program,
            own,
            textures,
            resolution,
            uniforms,
            quad,
            &locations,
        ) {
            Ok(commands) => {
                run(&commands);
                Ok(())
            },
            Err(e) => Err(e),
        }
    }
}

} // verus!
