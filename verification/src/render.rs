//! Rendering of a [`Diagnostic`] as an ordered sequence of styled output
//! segments.
//!
//! The renderer is pure: it turns a diagnostic into a [`Vec<Chunk>`] whose
//! model is stated exactly by [`render_model`]. A terminal front end writes
//! the segments in order to a color-capable stream and then terminates the
//! process with [`EXIT_CODE`]; nothing in that front end decides what is
//! shown.

use vstd::prelude::*;
use vstd::string::StringExecFns;

use crate::errors::cause_spec;
use crate::errors::description_spec;
use crate::errors::Diagnostic;

verus! {

/// The process exit status reported after any diagnostic is rendered.
pub const EXIT_CODE: i32 = 2;

/// A foreground color of the styled diagnostic stream.
#[derive(Clone, Copy, PartialEq, Eq, Structural, Debug)]
pub enum Color {
    Red,
    Yellow,
    Green,
    White,
}

/// The compiled host platform, which selects the package-install guidance
/// shown for a missing or outdated kcov.
#[derive(Clone, Copy, PartialEq, Eq, Structural, Debug)]
pub enum Platform {
    Linux,
    MacOs,
    Other,
}

/// One styled output segment: a styling change, UTF-8 text, or raw bytes
/// written verbatim.
#[derive(Debug)]
pub enum Chunk {
    /// Set the foreground color.
    Fg(Color),
    /// Turn on the bold attribute.
    Bold,
    /// Turn on the underline attribute.
    Underline,
    /// Reset color and attributes to the default.
    Reset,
    /// Write UTF-8 text.
    Text(String),
    /// Write raw bytes verbatim, never re-interpreted as text.
    Raw(Vec<u8>),
}

/// The mathematical model of one segment: as [`Chunk`], with text as a
/// sequence of characters and raw output as a sequence of bytes.
pub enum ChunkModel {
    Fg(Color),
    Bold,
    Underline,
    Reset,
    Text(Seq<char>),
    Raw(Seq<u8>),
}

impl View for Chunk {
    type V = ChunkModel;

    open spec fn view(&self) -> ChunkModel {
        match self {
            Chunk::Fg(c) => ChunkModel::Fg(*c),
            Chunk::Bold => ChunkModel::Bold,
            Chunk::Underline => ChunkModel::Underline,
            Chunk::Reset => ChunkModel::Reset,
            Chunk::Text(s) => ChunkModel::Text(s@),
            Chunk::Raw(b) => ChunkModel::Raw(b@),
        }
    }
}

/// The models of a sequence of segments, in order.
pub open spec fn chunk_views(cs: Seq<Chunk>) -> Seq<ChunkModel> {
    cs.map_values(|c: Chunk| c@)
}

/// A bold, colored label such as `error: `, with styling reset afterwards
/// so it never bleeds into the following text.
pub open spec fn label_model(color: Color, label: Seq<char>) -> Seq<ChunkModel> {
    seq![
        ChunkModel::Fg(color),
        ChunkModel::Bold,
        ChunkModel::Text(label),
        ChunkModel::Reset,
    ]
}

/// The headline: a red `error: ` label followed by the description line.
pub open spec fn headline_model(e: Diagnostic) -> Seq<ChunkModel> {
    label_model(Color::Red, "error: "@) + seq![
        ChunkModel::Text(description_spec(e)),
        ChunkModel::Text("\n"@),
    ]
}

/// The note block of a failed cargo subcommand: the subcommand name and its
/// exit status, then the captured standard error verbatim.
pub open spec fn cargo_note_model(subcommand: Seq<char>, status: Seq<char>, stderr: Seq<u8>) -> Seq<
    ChunkModel,
> {
    label_model(Color::Yellow, "note: "@) + seq![
        ChunkModel::Text("cargo "@),
        ChunkModel::Text(subcommand),
        ChunkModel::Text(" exited with code "@),
        ChunkModel::Text(status),
        ChunkModel::Text("\n"@),
        ChunkModel::Raw(stderr),
    ]
}

/// The note block emitted for a diagnostic, non-empty only for a failed
/// cargo subcommand.
pub open spec fn note_model(e: Diagnostic) -> Seq<ChunkModel> {
    match e {
        Diagnostic::Cargo { subcommand, status, stderr } => cargo_note_model(
            subcommand@,
            status@,
            stderr@,
        ),
        _ => Seq::empty(),
    }
}

/// A `caused by: ` line holding the display text of an underlying error.
pub open spec fn cause_block_model(message: Seq<char>) -> Seq<ChunkModel> {
    label_model(Color::Yellow, "caused by: "@) + seq![
        ChunkModel::Text(message),
        ChunkModel::Text("\n"@),
    ]
}

/// The cause line emitted for a diagnostic: present exactly when the
/// diagnostic carries a cause.
pub open spec fn cause_model(e: Diagnostic) -> Seq<ChunkModel> {
    match cause_spec(e) {
        Some(m) => cause_block_model(m),
        None => Seq::empty(),
    }
}

/// The white `    $ ` prompt shown before each copy-pasteable command.
pub open spec fn prompt_model() -> Seq<ChunkModel> {
    seq![
        ChunkModel::Fg(Color::White),
        ChunkModel::Text("    $ "@),
        ChunkModel::Reset,
    ]
}

/// The package-install commands suggested for the host platform; none on an
/// unsupported platform.
pub open spec fn platform_commands_model(p: Platform) -> Seq<ChunkModel> {
    match p {
        Platform::Linux => prompt_model() + seq![
            ChunkModel::Text("sudo apt-get install cmake g++ pkg-config jq\n\n"@),
        ] + prompt_model() + seq![
            ChunkModel::Text(
                "sudo apt-get install libcurl4-openssl-dev libelf-dev libdw-dev binutils-dev libiberty-dev\n\n"@,
            ),
        ],
        Platform::MacOs => prompt_model() + seq![ChunkModel::Text("brew install cmake jq\n\n"@)],
        Platform::Other => Seq::empty(),
    }
}

/// The green remediation note for a missing or outdated kcov: the
/// installation guidance URL, the platform's package-install commands, and
/// the final command that installs kcov through the wrapper itself.
pub open spec fn install_note_model(p: Platform) -> Seq<ChunkModel> {
    label_model(Color::Green, "note: "@) + seq![
        ChunkModel::Text("you may follow "@),
        ChunkModel::Underline,
        ChunkModel::Text("https://users.rust-lang.org/t/650"@),
        ChunkModel::Reset,
        ChunkModel::Text(" to install kcov:\n\n"@),
    ] + platform_commands_model(p) + prompt_model() + seq![
        ChunkModel::Text("cargo kcov --print-install-kcov-sh | sh\n"@),
    ]
}

/// The green remediation note shown when no test targets were found: a
/// clean/rebuild/rerun command sequence.
pub open spec fn rebuild_note_model() -> Seq<ChunkModel> {
    label_model(Color::Green, "note: "@) + seq![
        ChunkModel::Text("try a clean rebuild first:\n\n"@),
    ] + prompt_model() + seq![
        ChunkModel::Text(
            "cargo clean &&\n        RUSTFLAGS=\"-C link-dead-code\" cargo test --no-run &&\n        cargo kcov --no-clean-rebuild\n\n                \n"@,
        ),
    ]
}

/// The remediation block emitted for a diagnostic, selected by exact
/// variant match.
pub open spec fn remedy_model(e: Diagnostic, p: Platform) -> Seq<ChunkModel> {
    match e {
        Diagnostic::KcovTooOld => install_note_model(p),
        Diagnostic::KcovNotInstalled(_) => install_note_model(p),
        Diagnostic::CannotFindTestTargets(_) => rebuild_note_model(),
        _ => Seq::empty(),
    }
}

/// The full rendering protocol, in fixed order: headline, the note block of
/// a failed cargo subcommand, the cause line, and the remediation block.
pub open spec fn render_model(e: Diagnostic, p: Platform) -> Seq<ChunkModel> {
    headline_model(e) + note_model(e) + cause_model(e) + remedy_model(e, p)
}

fn push_chunk(out: &mut Vec<Chunk>, c: Chunk)
    ensures
        chunk_views(final(out)@) == chunk_views(old(out)@).push(c@),
{
    let ghost cv = c@;
    out.push(c);
    proof {
        assert(chunk_views(out@) =~= chunk_views(old(out)@).push(cv));
    }
}

fn push_text(out: &mut Vec<Chunk>, text: &str)
    ensures
        chunk_views(final(out)@) == chunk_views(old(out)@).push(ChunkModel::Text(text@)),
{
    push_chunk(out, Chunk::Text(String::from_str(text)));
}

fn push_label(out: &mut Vec<Chunk>, color: Color, label: &str)
    ensures
        chunk_views(final(out)@) == chunk_views(old(out)@) + label_model(color, label@),
{
    push_chunk(out, Chunk::Fg(color));
    push_chunk(out, Chunk::Bold);
    push_text(out, label);
    push_chunk(out, Chunk::Reset);
    proof {
        assert(chunk_views(out@) =~= chunk_views(old(out)@) + label_model(color, label@));
    }
}

fn push_cause_block(out: &mut Vec<Chunk>, message: String)
    ensures
        chunk_views(final(out)@) == chunk_views(old(out)@) + cause_block_model(message@),
{
    let ghost mv = message@;
    push_label(out, Color::Yellow, "caused by: ");
    push_chunk(out, Chunk::Text(message));
    push_text(out, "\n");
    proof {
        assert(chunk_views(out@) =~= chunk_views(old(out)@) + cause_block_model(mv));
    }
}

fn push_prompt(out: &mut Vec<Chunk>)
    ensures
        chunk_views(final(out)@) == chunk_views(old(out)@) + prompt_model(),
{
    push_chunk(out, Chunk::Fg(Color::White));
    push_text(out, "    $ ");
    push_chunk(out, Chunk::Reset);
    proof {
        assert(chunk_views(out@) =~= chunk_views(old(out)@) + prompt_model());
    }
}

fn push_cargo_note(out: &mut Vec<Chunk>, subcommand: String, status: String, stderr: Vec<u8>)
    ensures
        chunk_views(final(out)@) == chunk_views(old(out)@) + cargo_note_model(
            subcommand@,
            status@,
            stderr@,
        ),
{
    let ghost subv = subcommand@;
    let ghost stv = status@;
    let ghost sev = stderr@;
    push_label(out, Color::Yellow, "note: ");
    push_text(out, "cargo ");
    push_chunk(out, Chunk::Text(subcommand));
    push_text(out, " exited with code ");
    push_chunk(out, Chunk::Text(status));
    push_text(out, "\n");
    push_chunk(out, Chunk::Raw(stderr));
    proof {
        assert(chunk_views(out@) =~= chunk_views(old(out)@) + cargo_note_model(subv, stv, sev));
    }
}

fn push_install_note(out: &mut Vec<Chunk>, platform: Platform)
    ensures
        chunk_views(final(out)@) == chunk_views(old(out)@) + install_note_model(platform),
{
    push_label(out, Color::Green, "note: ");
    push_text(out, "you may follow ");
    push_chunk(out, Chunk::Underline);
    push_text(out, "https://users.rust-lang.org/t/650");
    push_chunk(out, Chunk::Reset);
    push_text(out, " to install kcov:\n\n");
    match platform {
        Platform::Linux => {
            push_prompt(out);
            push_text(out, "sudo apt-get install cmake g++ pkg-config jq\n\n");
            push_prompt(out);
            push_text(
                out,
                "sudo apt-get install libcurl4-openssl-dev libelf-dev libdw-dev binutils-dev libiberty-dev\n\n",
            );
        },
        Platform::MacOs => {
            push_prompt(out);
            push_text(out, "brew install cmake jq\n\n");
        },
        Platform::Other => {},
    }
    push_prompt(out);
    push_text(out, "cargo kcov --print-install-kcov-sh | sh\n");
    proof {
        assert(chunk_views(out@) =~= chunk_views(old(out)@) + install_note_model(platform));
    }
}

fn push_rebuild_note(out: &mut Vec<Chunk>)
    ensures
        chunk_views(final(out)@) == chunk_views(old(out)@) + rebuild_note_model(),
{
    push_label(out, Color::Green, "note: ");
    push_text(out, "try a clean rebuild first:\n\n");
    push_prompt(out);
    push_text(
        out,
        "cargo clean &&\n        RUSTFLAGS=\"-C link-dead-code\" cargo test --no-run &&\n        cargo kcov --no-clean-rebuild\n\n                \n",
    );
    proof {
        assert(chunk_views(out@) =~= chunk_views(old(out)@) + rebuild_note_model());
    }
}

impl Diagnostic {
    /// Renders this diagnostic as the full ordered sequence of styled
    /// segments of the reporting protocol, exactly as [`render_model`]
    /// states: the headline, the note block of a failed cargo subcommand,
    /// the cause line, and the remediation block.
    pub fn render(self, platform: Platform) -> (r: Vec<Chunk>)
        ensures
            chunk_views(r@) == render_model(self, platform),
    {
        let ghost e0 = self;
        let mut out: Vec<Chunk> = Vec::new();
        push_label(&mut out, Color::Red, "error: ");
        push_chunk(&mut out, Chunk::Text(String::from_str(self.description())));
        push_text(&mut out, "\n");
        proof {
            assert(chunk_views(out@) =~= headline_model(e0));
        }
        match self {
            Diagnostic::UnsupportedOS => {},
            Diagnostic::KcovTooOld => {
                push_install_note(&mut out, platform);
            },
            Diagnostic::KcovNotInstalled(m) => {
                push_cause_block(&mut out, m);
                push_install_note(&mut out, platform);
            },
            Diagnostic::CannotRunCargo(m) => {
                push_cause_block(&mut out, m);
            },
            Diagnostic::Utf8(m) => {
                push_cause_block(&mut out, m);
            },
            Diagnostic::Json(p) => {
                match p {
                    Some(m) => {
                        push_cause_block(&mut out, m);
                    },
                    None => {},
                }
            },
            Diagnostic::CannotCreateCoverageDirectory(m) => {
                push_cause_block(&mut out, m);
            },
            Diagnostic::Cargo { subcommand, status, stderr } => {
                push_cargo_note(&mut out, subcommand, status, stderr);
            },
            Diagnostic::KcovFailed(res) => {
                match res {
                    Ok(s) => {
                        push_cause_block(&mut out, s);
                    },
                    Err(m) => {
                        push_cause_block(&mut out, m);
                    },
                }
            },
            Diagnostic::NoCoverallsId => {},
            Diagnostic::CannotFindTestTargets(p) => {
                match p {
                    Some(m) => {
                        push_cause_block(&mut out, m);
                    },
                    None => {},
                }
                push_rebuild_note(&mut out);
            },
        }
        proof {
            assert(chunk_views(out@) =~= render_model(e0, platform));
        }
        out
    }
}

/// Law: rendering a failed cargo subcommand writes the subcommand name and
/// its exit status into the note line, followed immediately by the captured
/// standard-error bytes, unchanged and uninterpreted.
pub proof fn lemma_cargo_note_verbatim(subcommand: String, status: String, stderr: Vec<u8>, p: Platform)
    ensures
        ({
            let m = render_model((Diagnostic::Cargo { subcommand, status, stderr }), p);
            exists|i: int|
                0 <= i && i + 6 <= m.len() && #[trigger] m.subrange(i, i + 6) == seq![
                    ChunkModel::Text("cargo "@),
                    ChunkModel::Text(subcommand@),
                    ChunkModel::Text(" exited with code "@),
                    ChunkModel::Text(status@),
                    ChunkModel::Text("\n"@),
                    ChunkModel::Raw(stderr@),
                ]
        }),
{
    let m = render_model((Diagnostic::Cargo { subcommand, status, stderr }), p);
    let i: int = 10;
    assert(m.subrange(i, i + 6) =~= seq![
        ChunkModel::Text("cargo "@),
        ChunkModel::Text(subcommand@),
        ChunkModel::Text(" exited with code "@),
        ChunkModel::Text(status@),
        ChunkModel::Text("\n"@),
        ChunkModel::Raw(stderr@),
    ]);
    assert(0 <= i && i + 6 <= m.len() && m.subrange(i, i + 6) == seq![
        ChunkModel::Text("cargo "@),
        ChunkModel::Text(subcommand@),
        ChunkModel::Text(" exited with code "@),
        ChunkModel::Text(status@),
        ChunkModel::Text("\n"@),
        ChunkModel::Raw(stderr@),
    ]);
}

/// Law: rendering a missing or outdated kcov always shows the fixed
/// installation guidance URL, and the very last segment is the command that
/// installs kcov through the wrapper itself.
pub proof fn lemma_install_guidance_rendered(e: Diagnostic, p: Platform)
    requires
        e matches Diagnostic::KcovTooOld || e matches Diagnostic::KcovNotInstalled(_),
    ensures
        render_model(e, p).contains(ChunkModel::Text("https://users.rust-lang.org/t/650"@)),
        render_model(e, p).len() > 0,
        render_model(e, p).last() == ChunkModel::Text("cargo kcov --print-install-kcov-sh | sh\n"@),
{
    let m = render_model(e, p);
    let pre = headline_model(e) + note_model(e) + cause_model(e);
    let install = install_note_model(p);
    assert(install[6] == ChunkModel::Text("https://users.rust-lang.org/t/650"@));
    assert(m[pre.len() as int + 6] == ChunkModel::Text("https://users.rust-lang.org/t/650"@));
    assert(m.contains(ChunkModel::Text("https://users.rust-lang.org/t/650"@)));
    assert(install.last() == ChunkModel::Text("cargo kcov --print-install-kcov-sh | sh\n"@));
    assert(m.last() == install.last());
}

/// Law: rendering a failed search for test targets always ends with the
/// green note that suggests the clean/rebuild/rerun command sequence.
pub proof fn lemma_rebuild_guidance_rendered(e: Diagnostic, p: Platform)
    requires
        e matches Diagnostic::CannotFindTestTargets(_),
    ensures
        render_model(e, p).contains(ChunkModel::Text("try a clean rebuild first:\n\n"@)),
        render_model(e, p).len() > 0,
        render_model(e, p).last() == ChunkModel::Text(
            "cargo clean &&\n        RUSTFLAGS=\"-C link-dead-code\" cargo test --no-run &&\n        cargo kcov --no-clean-rebuild\n\n                \n"@,
        ),
{
    let m = render_model(e, p);
    let pre = headline_model(e) + note_model(e) + cause_model(e);
    let rebuild = rebuild_note_model();
    assert(rebuild[4] == ChunkModel::Text("try a clean rebuild first:\n\n"@));
    assert(m[pre.len() as int + 4] == ChunkModel::Text("try a clean rebuild first:\n\n"@));
    assert(m.contains(ChunkModel::Text("try a clean rebuild first:\n\n"@)));
    assert(rebuild.last() == ChunkModel::Text(
        "cargo clean &&\n        RUSTFLAGS=\"-C link-dead-code\" cargo test --no-run &&\n        cargo kcov --no-clean-rebuild\n\n                \n"@,
    ));
    assert(m.last() == rebuild.last());
}

} // verus!
