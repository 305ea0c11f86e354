//! Framebuffer objects and what is attached to them.

use crate::command::{run, submit, Command};
use crate::constants::{GL_FRAMEBUFFER, GL_FRAMEBUFFER_COMPLETE, GL_RENDERBUFFER};
use crate::gl;
use crate::glesv2_raii::error::{Error, ErrorView};
use crate::glesv2_raii::renderbuffer::Renderbuffer;
use crate::glesv2_raii::texture::Texture;
use crate::table::{find_last, last_wins, lemma_last_wins_absent, lemma_last_wins_at};
use vstd::prelude::*;

verus! {

/// A texture as it is attached to a framebuffer: the target it is bound
/// through, the texture, which the attachment owns, and the mipmap level that
/// is rendered to.
pub struct TextureAttachment {
    pub target: u32,
    pub texture: Texture,
    pub mipmap_level: i32,
}

/// A renderbuffer as it is attached to a framebuffer, which the attachment
/// owns.
pub struct RenderbufferAttachment {
    pub renderbuffer: Renderbuffer,
}

/// What a texture attachment says, with the texture as its handle.
pub struct TextureSlot {
    pub target: u32,
    pub texture: u32,
    pub level: i32,
}

impl View for TextureAttachment {
    type V = TextureSlot;

    open spec fn view(&self) -> TextureSlot {
        TextureSlot { target: self.target, texture: self.texture.id(), level: self.mipmap_level }
    }
}

impl View for RenderbufferAttachment {
    type V = u32;

    open spec fn view(&self) -> u32 {
        self.renderbuffer.id()
    }
}

/// A list of texture attachments with each texture as its handle.
pub open spec fn texture_slots(entries: Seq<(u32, TextureAttachment)>) -> Seq<(u32, TextureSlot)> {
    Seq::new(entries.len(), |i: int| (entries[i].0, entries[i].1@))
}

/// A list of renderbuffer attachments with each renderbuffer as its handle.
pub open spec fn renderbuffer_slots(entries: Seq<(u32, RenderbufferAttachment)>) -> Seq<
    (u32, u32),
> {
    Seq::new(entries.len(), |i: int| (entries[i].0, entries[i].1@))
}

/// The texture attachments given to a framebuffer; no list stands for the
/// empty one.
pub open spec fn texture_entries(list: Option<Vec<(u32, TextureAttachment)>>) -> Seq<
    (u32, TextureSlot),
> {
    match list {
        Some(entries) => texture_slots(entries@),
        None => Seq::empty(),
    }
}

/// The renderbuffer attachments given to a framebuffer; no list stands for
/// the empty one.
pub open spec fn renderbuffer_entries(list: Option<Vec<(u32, RenderbufferAttachment)>>) -> Seq<
    (u32, u32),
> {
    match list {
        Some(entries) => renderbuffer_slots(entries@),
        None => Seq::empty(),
    }
}

/// The commands that bind the framebuffer `framebuffer` and attach to it the
/// textures, in order, and then the renderbuffers, in order.
pub open spec fn attach_plan(
    framebuffer: u32,
    textures: Seq<(u32, TextureSlot)>,
    renderbuffers: Seq<(u32, u32)>,
) -> Seq<Command> {
    seq![Command::BindFramebuffer { target: GL_FRAMEBUFFER, framebuffer }] + Seq::new(
        textures.len(),
        |i: int|
            Command::FramebufferTexture2d {
                target: GL_FRAMEBUFFER,
                attachment: textures[i].0,
                texture_target: textures[i].1.target,
                texture: textures[i].1.texture,
                level: textures[i].1.level,
            },
    ) + Seq::new(
        renderbuffers.len(),
        |i: int|
            Command::FramebufferRenderbuffer {
                target: GL_FRAMEBUFFER,
                attachment: renderbuffers[i].0,
                renderbuffer_target: GL_RENDERBUFFER,
                renderbuffer: renderbuffers[i].1,
            },
    )
}

/// A framebuffer object that this value alone owns, together with the
/// textures and renderbuffers attached to it.
///
/// Dropping the value deletes the framebuffer's handle and then, as each
/// attachment is dropped in turn, the handle of every texture and
/// renderbuffer it owns.
pub struct Framebuffer {
    handle: u32,
    textures: Vec<(u32, TextureAttachment)>,
    renderbuffers: Vec<(u32, RenderbufferAttachment)>,
}

impl Framebuffer {
    /// The handle owned.
    pub closed spec fn id(&self) -> u32 {
        self.handle
    }

    /// The texture attachments as they were given, in order.
    pub closed spec fn texture_list(&self) -> Seq<(u32, TextureSlot)> {
        texture_entries(Some(self.textures))
    }

    /// The renderbuffer attachments as they were given, in order.
    pub closed spec fn renderbuffer_list(&self) -> Seq<(u32, u32)> {
        renderbuffer_entries(Some(self.renderbuffers))
    }

    /// The texture at each attachment point: where a point was given more
    /// than once, the last attachment given for it.
    pub open spec fn textures(&self) -> Map<u32, TextureSlot> {
        last_wins(self.texture_list())
    }

    /// The handle of the renderbuffer at each attachment point.
    pub open spec fn renderbuffers(&self) -> Map<u32, u32> {
        last_wins(self.renderbuffer_list())
    }

    /// The handle, for calls that bind the framebuffer.
    pub fn handle(&self) -> (handle: u32)
        ensures
            handle == self.id(),
    {
        self.handle
    }

    /// The commands that bind the framebuffer `framebuffer` and attach to it
    /// the textures, in order, and then the renderbuffers, in order.
    pub fn attach_commands(
        framebuffer: u32,
        textures: &[(u32, TextureAttachment)],
        renderbuffers: &[(u32, RenderbufferAttachment)],
    ) -> (commands: Vec<Command>)
        ensures
            commands@ == attach_plan(
                framebuffer,
                texture_slots(textures@),
                renderbuffer_slots(renderbuffers@),
            ),
    {
        let ghost texture_list = texture_slots(textures@);
        let ghost renderbuffer_list = renderbuffer_slots(renderbuffers@);
        let ghost head = seq![Command::BindFramebuffer { target: GL_FRAMEBUFFER, framebuffer }];
        let mut commands: Vec<Command> = Vec::new();
        commands.push(Command::BindFramebuffer { target: GL_FRAMEBUFFER, framebuffer });
        let mut i: usize = 0;
        while i < textures.len()
            invariant
                i <= textures@.len(),
                texture_list == texture_slots(textures@),
                head == seq![Command::BindFramebuffer { target: GL_FRAMEBUFFER, framebuffer }],
                commands@ == head + Seq::new(
                    i as nat,
                    |k: int|
                        Command::FramebufferTexture2d {
                            target: GL_FRAMEBUFFER,
                            attachment: texture_list[k].0,
                            texture_target: texture_list[k].1.target,
                            texture: texture_list[k].1.texture,
                            level: texture_list[k].1.level,
                        },
                ),
            decreases textures.len() - i,
        {
            let entry = &textures[i];
            commands.push(
                Command::FramebufferTexture2d {
                    target: GL_FRAMEBUFFER,
                    attachment: entry.0,
                    texture_target: entry.1.target,
                    texture: entry.1.texture.handle(),
                    level: entry.1.mipmap_level,
                },
            );
            i += 1;
            assert(commands@ =~= head + Seq::new(
                i as nat,
                |k: int|
                    Command::FramebufferTexture2d {
                        target: GL_FRAMEBUFFER,
                        attachment: texture_list[k].0,
                        texture_target: texture_list[k].1.target,
                        texture: texture_list[k].1.texture,
                        level: texture_list[k].1.level,
                    },
            ));
        }
        let ghost middle = commands@;
        let mut j: usize = 0;
        while j < renderbuffers.len()
            invariant
                j <= renderbuffers@.len(),
                renderbuffer_list == renderbuffer_slots(renderbuffers@),
                commands@ == middle + Seq::new(
                    j as nat,
                    |k: int|
                        Command::FramebufferRenderbuffer {
                            target: GL_FRAMEBUFFER,
                            attachment: renderbuffer_list[k].0,
                            renderbuffer_target: GL_RENDERBUFFER,
                            renderbuffer: renderbuffer_list[k].1,
                        },
                ),
            decreases renderbuffers.len() - j,
        {
            let entry = &renderbuffers[j];
            commands.push(
                Command::FramebufferRenderbuffer {
                    target: GL_FRAMEBUFFER,
                    attachment: entry.0,
                    renderbuffer_target: GL_RENDERBUFFER,
                    renderbuffer: entry.1.renderbuffer.handle(),
                },
            );
            j += 1;
            assert(commands@ =~= middle + Seq::new(
                j as nat,
                |k: int|
                    Command::FramebufferRenderbuffer {
                        target: GL_FRAMEBUFFER,
                        attachment: renderbuffer_list[k].0,
                        renderbuffer_target: GL_RENDERBUFFER,
                        renderbuffer: renderbuffer_list[k].1,
                    },
            ));
        }
        assert(commands@ =~= attach_plan(framebuffer, texture_list, renderbuffer_list));
        commands
    }

    /// The handle of the texture that a list of attachments leaves at
    /// `point`: that of the last attachment given for the point, if any was.
    pub fn find_texture(textures: &[(u32, TextureAttachment)], point: u32) -> (handle: Option<u32>)
        ensures
            handle == if last_wins(texture_slots(textures@)).contains_key(point) {
                Some(last_wins(texture_slots(textures@))[point].texture)
            } else {
                None
            },
    {
        match find_last(textures, &point) {
            Some(at) => {
                proof {
                    lemma_last_wins_at(texture_slots(textures@), point, at as int);
                }
                Some(textures[at].1.texture.handle())
            },
            None => {
                proof {
                    lemma_last_wins_absent(texture_slots(textures@), point);
                }
                None
            },
        }
    }

    /// The handle of the renderbuffer that a list of attachments leaves at
    /// `point`: that of the last attachment given for the point, if any was.
    pub fn find_renderbuffer(renderbuffers: &[(u32, RenderbufferAttachment)], point: u32) -> (handle:
        Option<u32>)
        ensures
            handle == if last_wins(renderbuffer_slots(renderbuffers@)).contains_key(point) {
                Some(last_wins(renderbuffer_slots(renderbuffers@))[point])
            } else {
                None
            },
    {
        match find_last(renderbuffers, &point) {
            Some(at) => {
                proof {
                    lemma_last_wins_at(renderbuffer_slots(renderbuffers@), point, at as int);
                }
                Some(renderbuffers[at].1.renderbuffer.handle())
            },
            None => {
                proof {
                    lemma_last_wins_absent(renderbuffer_slots(renderbuffers@), point);
                }
                None
            },
        }
    }

    /// Reads the status that the API reported: any status but "complete"
    /// fails, with that status.
    pub fn status_verdict(status: u32) -> (result: Result<(), Error>)
        ensures
            match result {
                Ok(()) => status == GL_FRAMEBUFFER_COMPLETE,
                Err(e) => status != GL_FRAMEBUFFER_COMPLETE && e@
                    == ErrorView::IncompleteFramebuffer(status),
            },
    {
        if status == GL_FRAMEBUFFER_COMPLETE {
            Ok(())
        } else {
            Err(Error::IncompleteFramebuffer(status))
        }
    }

    /// Creates a framebuffer and attaches the textures and renderbuffers
    /// given, which it takes ownership of.
    ///
    /// Where an attachment point is given more than once, the last attachment
    /// given for it stands. Whether the result is complete is for the graphics
    /// context to say; if it is not, this fails with the status reported, and
    /// the framebuffer and all attachments are dropped. A framebuffer that is
    /// returned is left bound as the target of drawing.
    pub fn new(
        textures: Option<Vec<(u32, TextureAttachment)>>,
        renderbuffers: Option<Vec<(u32, RenderbufferAttachment)>>,
    ) -> (result: Result<Framebuffer, Error>)
        ensures
            match result {
                Ok(framebuffer) => framebuffer.texture_list() == texture_entries(textures)
                    && framebuffer.renderbuffer_list() == renderbuffer_entries(renderbuffers),
                Err(e) => e@ is IncompleteFramebuffer && e@->IncompleteFramebuffer_0
                    != GL_FRAMEBUFFER_COMPLETE,
            },
    {
        let handles = gl::gen_framebuffers(1);
        let framebuffer = Framebuffer {
            handle: handles[0],
            textures: match textures {
                Some(entries) => entries,
                None => Vec::new(),
            },
            renderbuffers: match renderbuffers {
                Some(entries) => entries,
                None => Vec::new(),
            },
        };
        assert(framebuffer.texture_list() =~= texture_entries(textures));
        assert(framebuffer.renderbuffer_list() =~= renderbuffer_entries(renderbuffers));
        run(
            &Framebuffer::attach_commands(
                framebuffer.handle,
                framebuffer.textures.as_slice(),
                framebuffer.renderbuffers.as_slice(),
            ),
        );
        let status = gl::check_framebuffer_status(GL_FRAMEBUFFER);
        match Framebuffer::status_verdict(status) {
            Ok(()) => Ok(framebuffer),
            Err(e) => Err(e),
        }
    }

    /// The handle of the texture at attachment point `point`, if there is
    /// one.
    pub fn texture_handle(&self, point: u32) -> (handle: Option<u32>)
        ensures
            handle == if self.textures().contains_key(point) {
                Some(self.textures()[point].texture)
            } else {
                None
            },
    {
        Framebuffer::find_texture(self.textures.as_slice(), point)
    }

    /// The handle of the renderbuffer at attachment point `point`, if there
    /// is one.
    pub fn renderbuffer_handle(&self, point: u32) -> (handle: Option<u32>)
        ensures
            handle == if self.renderbuffers().contains_key(point) {
                Some(self.renderbuffers()[point])
            } else {
                None
            },
    {
        Framebuffer::find_renderbuffer(self.renderbuffers.as_slice(), point)
    }

    /// The command that dropping this value submits for the framebuffer
    /// itself: it deletes the handle owned, and nothing else.
    pub fn deletion(&self) -> (command: Command)
        ensures
            command == (Command::DeleteFramebuffer { framebuffer: self.id() }),
        opens_invariants none
        no_unwind
    {
        Command::DeleteFramebuffer { framebuffer: self.handle }
    }
}

impl Drop for Framebuffer {
    fn drop(&mut self)
        opens_invariants none
        no_unwind
    {
        submit(&self.deletion());
    }
}

} // verus!
