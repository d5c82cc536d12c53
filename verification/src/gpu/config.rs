//! How the GPU device is set up.

use std::ops::BitOr;
use vstd::prelude::*;
use vstd::string::*;

verus! {

/// The renderer that executes the commands of the guest.
#[derive(Clone, Copy, Debug, PartialEq, Eq, Structural)]
pub enum GpuMode {
    /// The virglrenderer library.
    VirglRenderer,
    /// The gfxstream library.
    Gfxstream,
}

/// Whether two characters are the same, or would be if neither was an upper case letter of ASCII.
pub open spec fn same_char(a: char, b: char, ignore_case: bool) -> bool {
    a == b || ignore_case && lower_case(a as u32) == lower_case(b as u32)
}

/// The code of a character, or of the lower case letter if it is an upper case letter of ASCII.
pub open spec fn lower_case(code: u32) -> int {
    if 0x41 <= code <= 0x5a {
        code + 0x20
    } else {
        code as int
    }
}

/// Whether two texts are the same, up to the case of letters of ASCII if that is to be ignored.
pub open spec fn same_text(a: Seq<char>, b: Seq<char>, ignore_case: bool) -> bool {
    &&& a.len() == b.len()
    &&& forall|i: int| 0 <= i < a.len() ==> same_char(#[trigger] a[i], b[i], ignore_case)
}

fn is_same_char(a: char, b: char, ignore_case: bool) -> (same: bool)
    ensures
        same == same_char(a, b, ignore_case),
{
    let a_code: u32 = a as u32;
    let b_code: u32 = b as u32;
    let a_lower: u32 = if 0x41 <= a_code && a_code <= 0x5a {
        a_code + 0x20
    } else {
        a_code
    };
    let b_lower: u32 = if 0x41 <= b_code && b_code <= 0x5a {
        b_code + 0x20
    } else {
        b_code
    };
    a_code == b_code || ignore_case && a_lower == b_lower
}

fn is_same_text(a: &str, b: &str, ignore_case: bool) -> (same: bool)
    ensures
        same == same_text(a@, b@, ignore_case),
{
    let len: usize = a.unicode_len();
    if b.unicode_len() != len {
        return false;
    }
    let mut i: usize = 0;
    while i < len
        invariant
            i <= len == a@.len() == b@.len(),
            forall|j: int| 0 <= j < i ==> same_char(#[trigger] a@[j], b@[j], ignore_case),
        decreases len - i,
    {
        if !is_same_char(a.get_char(i), b.get_char(i), ignore_case) {
            assert(!same_char(a@[i as int], b@[i as int], ignore_case));
            return false;
        }
        i += 1;
    }
    true
}

impl GpuMode {
    /// The name of the mode.
    pub open spec fn spec_name(&self) -> Seq<char> {
        match self {
            GpuMode::VirglRenderer => "virglrenderer"@,
            GpuMode::Gfxstream => "gfxstream"@,
        }
    }

    /// The mode that is chosen by a text: by the name of a mode, or by another spelling of the
    /// first of them.
    pub open spec fn named(input: Seq<char>, ignore_case: bool) -> Option<GpuMode> {
        if same_text(input, "virglrenderer"@, ignore_case) || same_text(
            input,
            "virgl-renderer"@,
            ignore_case,
        ) {
            Some(GpuMode::VirglRenderer)
        } else if same_text(input, "gfxstream"@, ignore_case) {
            Some(GpuMode::Gfxstream)
        } else {
            None
        }
    }

    /// All modes.
    pub fn value_variants() -> (modes: Vec<GpuMode>)
        ensures
            modes@ == seq![GpuMode::VirglRenderer, GpuMode::Gfxstream],
    {
        let mut modes: Vec<GpuMode> = Vec::new();
        modes.push(GpuMode::VirglRenderer);
        modes.push(GpuMode::Gfxstream);
        modes
    }

    /// The name of the mode.
    pub fn to_string(&self) -> (name: String)
        ensures
            name@ == self.spec_name(),
    {
        match self {
            GpuMode::VirglRenderer => "virglrenderer".to_owned(),
            GpuMode::Gfxstream => "gfxstream".to_owned(),
        }
    }

    /// The mode that is chosen by a text.
    pub fn from_str(input: &str, ignore_case: bool) -> (mode: Option<GpuMode>)
        ensures
            mode == GpuMode::named(input@, ignore_case),
    {
        if is_same_text(input, "virglrenderer", ignore_case) || is_same_text(
            input,
            "virgl-renderer",
            ignore_case,
        ) {
            Some(GpuMode::VirglRenderer)
        } else if is_same_text(input, "gfxstream", ignore_case) {
            Some(GpuMode::Gfxstream)
        } else {
            None
        }
    }
}

/// Every mode is chosen by its name, whether the case of letters is ignored or not.
pub proof fn lemma_mode_is_named(mode: GpuMode, ignore_case: bool)
    ensures
        GpuMode::named(mode.spec_name(), ignore_case) == Some(mode),
{
    reveal_strlit("virglrenderer");
    reveal_strlit("virgl-renderer");
    reveal_strlit("gfxstream");
}

/// A set of ways in which the guest can talk to the renderer.
#[derive(Clone, Copy, Debug, PartialEq, Eq, Structural)]
pub struct GpuCapset {
    /// OpenGL through virglrenderer.
    pub virgl: bool,
    /// OpenGL through virglrenderer, in its second version.
    pub virgl2: bool,
    /// Vulkan through gfxstream.
    pub gfxstream_vulkan: bool,
    /// OpenGL ES through gfxstream.
    pub gfxstream_gles: bool,
}

/// Texts one after another, with a comma and a space in between.
pub open spec fn joined(texts: Seq<Seq<char>>) -> Seq<char>
    decreases texts.len(),
{
    if texts.len() == 0 {
        seq![]
    } else if texts.len() == 1 {
        texts[0]
    } else {
        joined(texts.drop_last()) + ", "@ + texts.last()
    }
}

/// A text, or nothing.
pub open spec fn text_if(present: bool, text: Seq<char>) -> Seq<Seq<char>> {
    if present {
        seq![text]
    } else {
        seq![]
    }
}

/// Appends a text to a list of texts, if it is present.
fn append_if(list: &mut String, count: usize, present: bool, text: &str) -> (new_count: usize)
    requires
        count < 4,
        exists|texts: Seq<Seq<char>>| texts.len() == count && old(list)@ == #[trigger] joined(texts),
    ensures
        new_count == count + (if present {
            1int
        } else {
            0int
        }),
        forall|texts: Seq<Seq<char>>|
            texts.len() == count && old(list)@ == #[trigger] joined(texts) ==> final(list)@
                == joined(texts + text_if(present, text@)),
{
    if present {
        if count > 0 {
            list.append(", ");
        }
        list.append(text);
        proof {
            assert forall|texts: Seq<Seq<char>>|
                texts.len() == count && old(list)@ == #[trigger] joined(texts) implies list@
                == joined(texts + text_if(present, text@)) by {
                let longer = texts + text_if(present, text@);
                assert(longer.drop_last() =~= texts);
                assert(longer.last() == text@);
                assert(list@ =~= joined(longer));
            }
        }
        count + 1
    } else {
        proof {
            assert forall|texts: Seq<Seq<char>>|
                texts.len() == count && old(list)@ == #[trigger] joined(texts) implies list@
                == joined(texts + text_if(present, text@)) by {
                assert(texts + text_if(present, text@) =~= texts);
            }
        }
        count
    }
}

impl GpuCapset {
    /// No way at all.
    pub open spec fn spec_empty() -> GpuCapset {
        GpuCapset { virgl: false, virgl2: false, gfxstream_vulkan: false, gfxstream_gles: false }
    }

    /// The names of what is in the set.
    pub open spec fn spec_names(&self) -> Seq<Seq<char>> {
        text_if(self.virgl, "virgl"@) + text_if(self.virgl2, "virgl2"@) + text_if(
            self.gfxstream_vulkan,
            "gfxstream-vulkan"@,
        ) + text_if(self.gfxstream_gles, "gfxstream-gles"@)
    }

    /// Both sets together.
    pub open spec fn union(self, other: GpuCapset) -> GpuCapset {
        GpuCapset {
            virgl: self.virgl || other.virgl,
            virgl2: self.virgl2 || other.virgl2,
            gfxstream_vulkan: self.gfxstream_vulkan || other.gfxstream_vulkan,
            gfxstream_gles: self.gfxstream_gles || other.gfxstream_gles,
        }
    }

    /// What a mode supports, and uses unless something else is asked for.
    pub open spec fn supported_by(mode: GpuMode) -> GpuCapset {
        match mode {
            GpuMode::VirglRenderer => GpuCapset {
                virgl: true,
                virgl2: true,
                ..GpuCapset::spec_empty()
            },
            GpuMode::Gfxstream => GpuCapset {
                gfxstream_vulkan: true,
                gfxstream_gles: true,
                ..GpuCapset::spec_empty()
            },
        }
    }

    /// The first thing in the set that a mode does not support.
    pub open spec fn first_unsupported(self, mode: GpuMode) -> Option<GpuCapset> {
        let supported = GpuCapset::supported_by(mode);
        if self.virgl && !supported.virgl {
            Some(GpuCapset { virgl: true, ..GpuCapset::spec_empty() })
        } else if self.virgl2 && !supported.virgl2 {
            Some(GpuCapset { virgl2: true, ..GpuCapset::spec_empty() })
        } else if self.gfxstream_vulkan && !supported.gfxstream_vulkan {
            Some(GpuCapset { gfxstream_vulkan: true, ..GpuCapset::spec_empty() })
        } else if self.gfxstream_gles && !supported.gfxstream_gles {
            Some(GpuCapset { gfxstream_gles: true, ..GpuCapset::spec_empty() })
        } else {
            None
        }
    }

    /// No way at all.
    pub fn empty() -> (capset: GpuCapset)
        ensures
            capset == GpuCapset::spec_empty(),
    {
        GpuCapset { virgl: false, virgl2: false, gfxstream_vulkan: false, gfxstream_gles: false }
    }

    /// OpenGL through virglrenderer.
    pub fn virgl() -> (capset: GpuCapset)
        ensures
            capset == (GpuCapset { virgl: true, ..GpuCapset::spec_empty() }),
    {
        GpuCapset { virgl: true, ..GpuCapset::empty() }
    }

    /// OpenGL through virglrenderer, in its second version.
    pub fn virgl2() -> (capset: GpuCapset)
        ensures
            capset == (GpuCapset { virgl2: true, ..GpuCapset::spec_empty() }),
    {
        GpuCapset { virgl2: true, ..GpuCapset::empty() }
    }

    /// Vulkan through gfxstream.
    pub fn gfxstream_vulkan() -> (capset: GpuCapset)
        ensures
            capset == (GpuCapset { gfxstream_vulkan: true, ..GpuCapset::spec_empty() }),
    {
        GpuCapset { gfxstream_vulkan: true, ..GpuCapset::empty() }
    }

    /// OpenGL ES through gfxstream.
    pub fn gfxstream_gles() -> (capset: GpuCapset)
        ensures
            capset == (GpuCapset { gfxstream_gles: true, ..GpuCapset::spec_empty() }),
    {
        GpuCapset { gfxstream_gles: true, ..GpuCapset::empty() }
    }

    /// How many ways are in the set.
    pub fn num_capsets(&self) -> (num: u32)
        ensures
            num == self.spec_names().len(),
    {
        let mut num: u32 = 0;
        if self.virgl {
            num += 1;
        }
        if self.virgl2 {
            num += 1;
        }
        if self.gfxstream_vulkan {
            num += 1;
        }
        if self.gfxstream_gles {
            num += 1;
        }
        num
    }

    /// The names of what is in the set, with commas in between.
    pub fn to_string(&self) -> (text: String)
        ensures
            text@ == joined(self.spec_names()),
    {
        let mut list = String::new();
        let ghost none = Seq::<Seq<char>>::empty();
        let ghost one = none + text_if(self.virgl, "virgl"@);
        let ghost two = one + text_if(self.virgl2, "virgl2"@);
        let ghost three = two + text_if(self.gfxstream_vulkan, "gfxstream-vulkan"@);
        let ghost four = three + text_if(self.gfxstream_gles, "gfxstream-gles"@);
        assert(list@ =~= joined(none));
        let count: usize = append_if(&mut list, 0, self.virgl, "virgl");
        assert(list@ == joined(one));
        let count: usize = append_if(&mut list, count, self.virgl2, "virgl2");
        assert(list@ == joined(two));
        let count: usize = append_if(&mut list, count, self.gfxstream_vulkan, "gfxstream-vulkan");
        assert(list@ == joined(three));
        let count: usize = append_if(&mut list, count, self.gfxstream_gles, "gfxstream-gles");
        assert(list@ == joined(four));
        assert(four =~= self.spec_names());
        list
    }
}

impl BitOr for GpuCapset {
    type Output = GpuCapset;

    fn bitor(self, rhs: GpuCapset) -> (capset: GpuCapset) {
        GpuCapset {
            virgl: self.virgl || rhs.virgl,
            virgl2: self.virgl2 || rhs.virgl2,
            gfxstream_vulkan: self.gfxstream_vulkan || rhs.gfxstream_vulkan,
            gfxstream_gles: self.gfxstream_gles || rhs.gfxstream_gles,
        }
    }
}

impl vstd::std_specs::ops::BitOrSpecImpl for GpuCapset {
    open spec fn obeys_bitor_spec() -> bool {
        true
    }

    open spec fn bitor_req(self, rhs: GpuCapset) -> bool {
        true
    }

    open spec fn bitor_spec(self, rhs: GpuCapset) -> GpuCapset {
        self.union(rhs)
    }
}

/// Switches of the renderer.
#[derive(Clone, Copy, Debug, PartialEq, Eq, Structural)]
pub struct GpuFlags {
    /// Use EGL.
    pub use_egl: bool,
    /// Use GLX.
    pub use_glx: bool,
    /// Use OpenGL ES.
    pub use_gles: bool,
    /// Render without a surface.
    pub use_surfaceless: bool,
}

impl GpuFlags {
    /// The switches as they are unless something else is asked for.
    pub open spec fn spec_default() -> GpuFlags {
        GpuFlags { use_egl: true, use_glx: false, use_gles: true, use_surfaceless: true }
    }

    /// The switches as they are unless something else is asked for.
    pub fn new_default() -> (flags: GpuFlags)
        ensures
            flags == GpuFlags::spec_default(),
    {
        GpuFlags { use_egl: true, use_glx: false, use_gles: true, use_surfaceless: true }
    }
}

impl Default for GpuFlags {
    fn default() -> (flags: GpuFlags)
        ensures
            flags == GpuFlags::spec_default(),
    {
        GpuFlags::new_default()
    }
}

/// Why a device cannot be set up.
#[derive(Clone, Copy, Debug, PartialEq, Eq, Structural)]
pub enum GpuConfigError {
    /// The mode does not support one of the ways to talk to the renderer.
    CapsetUnsuportedByMode(GpuMode, GpuCapset),
    /// OpenGL ES through gfxstream was asked for, but OpenGL ES is switched off.
    GlesRequiredByGfxstream,
}

/// How the GPU device is set up.
#[derive(Clone, Copy, Debug, PartialEq, Eq, Structural)]
pub struct GpuConfig {
    gpu_mode: GpuMode,
    capset: GpuCapset,
    flags: GpuFlags,
}

impl GpuConfig {
    /// The renderer.
    pub closed spec fn spec_gpu_mode(&self) -> GpuMode {
        self.gpu_mode
    }

    /// The ways to talk to the renderer.
    pub closed spec fn spec_capsets(&self) -> GpuCapset {
        self.capset
    }

    /// The switches of the renderer.
    pub closed spec fn spec_flags(&self) -> GpuFlags {
        self.flags
    }

    /// Why a device cannot be set up in a certain way, if it cannot.
    pub open spec fn config_error(gpu_mode: GpuMode, capset: GpuCapset, flags: GpuFlags) -> Option<
        GpuConfigError,
    > {
        match capset.first_unsupported(gpu_mode) {
            Some(unsupported) => Some(
                GpuConfigError::CapsetUnsuportedByMode(gpu_mode, unsupported),
            ),
            None => if capset.gfxstream_gles && !flags.use_gles {
                Some(GpuConfigError::GlesRequiredByGfxstream)
            } else {
                None
            },
        }
    }

    /// The ways to talk to virglrenderer, unless something else is asked for.
    pub fn default_virglrender_capset_mask() -> (capset: GpuCapset)
        ensures
            capset == GpuCapset::supported_by(GpuMode::VirglRenderer),
    {
        GpuCapset { virgl: true, virgl2: true, ..GpuCapset::empty() }
    }

    /// The ways to talk to gfxstream, unless something else is asked for.
    pub fn default_gfxstream_capset_mask() -> (capset: GpuCapset)
        ensures
            capset == GpuCapset::supported_by(GpuMode::Gfxstream),
    {
        GpuCapset { gfxstream_vulkan: true, gfxstream_gles: true, ..GpuCapset::empty() }
    }

    fn validate_capset(gpu_mode: GpuMode, capset: GpuCapset) -> (result: Result<
        (),
        GpuConfigError,
    >)
        ensures
            result == (match capset.first_unsupported(gpu_mode) {
                Some(unsupported) => Err::<(), GpuConfigError>(
                    GpuConfigError::CapsetUnsuportedByMode(gpu_mode, unsupported),
                ),
                None => Ok(()),
            }),
    {
        let supported = match gpu_mode {
            GpuMode::VirglRenderer => GpuConfig::default_virglrender_capset_mask(),
            GpuMode::Gfxstream => GpuConfig::default_gfxstream_capset_mask(),
        };
        let unsupported = if capset.virgl && !supported.virgl {
            GpuCapset::virgl()
        } else if capset.virgl2 && !supported.virgl2 {
            GpuCapset::virgl2()
        } else if capset.gfxstream_vulkan && !supported.gfxstream_vulkan {
            GpuCapset::gfxstream_vulkan()
        } else if capset.gfxstream_gles && !supported.gfxstream_gles {
            GpuCapset::gfxstream_gles()
        } else {
            return Ok(());
        };
        Err(GpuConfigError::CapsetUnsuportedByMode(gpu_mode, unsupported))
    }

    /// Sets up a device. Without `capset` it uses everything the mode supports.
    pub fn new(gpu_mode: GpuMode, capset: Option<GpuCapset>, flags: GpuFlags) -> (result: Result<
        GpuConfig,
        GpuConfigError,
    >)
        ensures
            ({
                let wanted = match capset {
                    Some(capset) => capset,
                    None => GpuCapset::supported_by(gpu_mode),
                };
                match GpuConfig::config_error(gpu_mode, wanted, flags) {
                    Some(e) => result == Err::<GpuConfig, GpuConfigError>(e),
                    None => {
                        &&& result is Ok
                        &&& result->Ok_0.spec_gpu_mode() == gpu_mode
                        &&& result->Ok_0.spec_capsets() == wanted
                        &&& result->Ok_0.spec_flags() == flags
                    },
                }
            }),
    {
        let capset = match capset {
            Some(capset) => capset,
            None => match gpu_mode {
                GpuMode::VirglRenderer => GpuConfig::default_virglrender_capset_mask(),
                GpuMode::Gfxstream => GpuConfig::default_gfxstream_capset_mask(),
            },
        };
        match GpuConfig::validate_capset(gpu_mode, capset) {
            Err(e) => Err(e),
            Ok(()) => if capset.gfxstream_gles && !flags.use_gles {
                Err(GpuConfigError::GlesRequiredByGfxstream)
            } else {
                Ok(GpuConfig { gpu_mode, capset, flags })
            },
        }
    }

    /// The renderer.
    pub fn gpu_mode(&self) -> (mode: GpuMode)
        ensures
            mode == self.spec_gpu_mode(),
    {
        self.gpu_mode
    }

    /// The ways to talk to the renderer.
    pub fn capsets(&self) -> (capset: GpuCapset)
        ensures
            capset == self.spec_capsets(),
    {
        self.capset
    }

    /// The switches of the renderer.
    pub fn flags(&self) -> (flags: &GpuFlags)
        ensures
            *flags == self.spec_flags(),
    {
        &self.flags
    }
}

/// A device can be set up without asking for certain ways to talk to the renderer, whatever the
/// mode, as long as OpenGL ES is not switched off.
pub proof fn lemma_default_capset_is_valid(gpu_mode: GpuMode, flags: GpuFlags)
    requires
        flags.use_gles,
    ensures
        GpuConfig::config_error(gpu_mode, GpuCapset::supported_by(gpu_mode), flags) is None,
{
}

/// A device that could be set up uses nothing that its mode does not support.
pub proof fn lemma_config_is_supported(gpu_mode: GpuMode, capset: GpuCapset, flags: GpuFlags)
    requires
        GpuConfig::config_error(gpu_mode, capset, flags) is None,
    ensures
        capset.union(GpuCapset::supported_by(gpu_mode)) == GpuCapset::supported_by(gpu_mode),
        capset.gfxstream_gles ==> flags.use_gles,
{
}

} // verus!
