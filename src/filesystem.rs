use vstd::prelude::*;

use crate::image::ImageInfo;

verus! {

/// A filesystem that the builder can make.
#[derive(Clone, Copy, Debug, PartialEq, Eq, Structural)]
pub enum FsKind {
    Fat32,
    Ext4,
}

/// A request to format one device.
#[derive(Debug)]
pub struct FormatRequest {
    pub target: String,
    pub kind: FsKind,
    /// Extra options handed to the formatter, as (option, value) pairs.
    pub options: Vec<(String, String)>,
}

/// Mathematical model of a [`FormatRequest`].
pub struct FormatRequestView {
    pub target: Seq<char>,
    pub kind: FsKind,
    pub options: Seq<(Seq<char>, Seq<char>)>,
}

impl View for FormatRequest {
    type V = FormatRequestView;

    open spec fn view(&self) -> FormatRequestView {
        FormatRequestView {
            target: self.target@,
            kind: self.kind,
            options: self.options@.map_values(|o: (String, String)| (o.0@, o.1@)),
        }
    }
}

/// The formatter options of a kind: FAT32 asks for a 32-bit FAT explicitly;
/// ext4 keeps the library's defaults.
pub open spec fn format_options(kind: FsKind) -> Seq<(Seq<char>, Seq<char>)> {
    match kind {
        FsKind::Fat32 => seq![("-F"@, "32"@)],
        FsKind::Ext4 => seq![],
    }
}

pub open spec fn format_request_spec(target: Seq<char>, kind: FsKind) -> FormatRequestView {
    FormatRequestView { target, kind, options: format_options(kind) }
}

/// The request that formats `target` as `kind`.
pub fn format_request(target: &str, kind: FsKind) -> (r: FormatRequest)
    ensures
        r@ == format_request_spec(target@, kind),
{
    let mut options: Vec<(String, String)> = Vec::new();
    match kind {
        FsKind::Fat32 => {
            options.push((String::from_str("-F"), String::from_str("32")));
        },
        FsKind::Ext4 => {},
    }
    let r = FormatRequest { target: String::from_str(target), kind, options };
    assert(r@.options =~= format_options(kind));
    r
}

/// The formats of an image, in order: its boot partition as FAT32, then
/// its logical volume as ext4.
pub open spec fn image_formats<I: ImageInfo>(image: &I) -> Seq<FormatRequestView> {
    seq![
        format_request_spec(image.boot_path_spec(), FsKind::Fat32),
        format_request_spec(image.root_path_spec(), FsKind::Ext4),
    ]
}

/// What formats the filesystems of an image: FAT32 on the boot partition,
/// ext4 on the logical volume, never the reverse.
pub fn create_image_file_systems<I: ImageInfo>(image: &I) -> (r: Vec<FormatRequest>)
    ensures
        r@.map_values(|q: FormatRequest| q@) == image_formats(image),
{
    let boot = image.boot_path();
    let root = image.root_path();
    let mut r: Vec<FormatRequest> = Vec::new();
    r.push(format_request(boot.as_str(), FsKind::Fat32));
    r.push(format_request(root.as_str(), FsKind::Ext4));
    assert(r@.map_values(|q: FormatRequest| q@) =~= image_formats(image));
    r
}

/// The filesystems to make on an image; see [`create_image_file_systems`].
pub fn create<I: ImageInfo>(image: &I) -> (r: Vec<FormatRequest>)
    ensures
        r@.map_values(|q: FormatRequest| q@) == image_formats(image),
{
    create_image_file_systems(image)
}

/// Why formatting could not go on.
#[derive(Clone, Debug)]
pub enum FormatError {
    /// The native filesystem library could not be initialised.
    InitFailed,
    /// Formatting a device failed; the image must be built again.
    FormatFailed { target: String },
}

/// The native filesystem library's lifetime in this process: it is
/// initialised once, however many devices are formatted, and closed once.
pub struct FsLibrary {
    initialized: bool,
    closed: bool,
}

/// Mathematical model of an [`FsLibrary`].
pub struct FsLibraryView {
    pub initialized: bool,
    pub closed: bool,
}

impl View for FsLibrary {
    type V = FsLibraryView;

    closed spec fn view(&self) -> FsLibraryView {
        FsLibraryView { initialized: self.initialized, closed: self.closed }
    }
}

impl FsLibrary {
    pub fn new() -> (r: FsLibrary)
        ensures
            !r@.initialized,
            !r@.closed,
    {
        FsLibrary { initialized: false, closed: false }
    }

    /// Whether the library is initialised and not closed yet.
    pub fn is_open(&self) -> (r: bool)
        ensures
            r == (self@.initialized && !self@.closed),
    {
        self.initialized && !self.closed
    }

    /// Whether the library must be initialised before formatting; once it
    /// is, a second initialisation is neither needed nor an error.
    pub fn needs_init(&self) -> (r: bool)
        ensures
            r == !self@.initialized,
    {
        !self.initialized
    }

    /// Takes whether initialising the library succeeded.
    pub fn record_init(&mut self, succeeded: bool) -> (r: Result<(), FormatError>)
        ensures
            final(self)@.closed == old(self)@.closed,
            old(self)@.initialized ==> r is Ok && final(self)@.initialized,
            !old(self)@.initialized ==> (r is Ok <==> succeeded) && final(self)@.initialized
                == succeeded,
            r matches Err(e) ==> e is InitFailed,
    {
        if self.initialized {
            return Ok(());
        }
        if succeeded {
            self.initialized = true;
            Ok(())
        } else {
            Err(FormatError::InitFailed)
        }
    }

    /// Takes whether formatting `request` succeeded; a failure aborts the
    /// build.
    pub fn record_format(&self, request: &FormatRequest, succeeded: bool) -> (r: Result<
        (),
        FormatError,
    >)
        ensures
            r is Ok <==> succeeded,
            r matches Err(e) ==> (e matches FormatError::FormatFailed { target } && target@
                == request@.target),
    {
        if succeeded {
            Ok(())
        } else {
            Err(FormatError::FormatFailed { target: request.target.clone() })
        }
    }

    /// Whether the library must be closed: it was initialised and is not
    /// closed yet. Closing it is then recorded, so it is closed only once.
    pub fn take_close(&mut self) -> (r: bool)
        ensures
            r == (old(self)@.initialized && !old(self)@.closed),
            final(self)@.initialized == old(self)@.initialized,
            final(self)@.closed == (old(self)@.closed || old(self)@.initialized),
    {
        if self.initialized && !self.closed {
            self.closed = true;
            true
        } else {
            false
        }
    }
}

} // verus!
