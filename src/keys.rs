use vstd::prelude::*;

verus! {

/// The two operating-system families that keystroke synthesis tells apart.
#[derive(Clone, Copy, Debug, PartialEq, Eq, Structural)]
pub enum Platform {
    /// macOS, where the copy shortcut is held on the Meta (Command) key.
    MacOs,
    /// Every other system (Windows, Linux, ...), where it is held on Ctrl.
    Other,
}

/// A key that the relay asks the input layer to synthesize.
#[derive(Clone, Copy, Debug, PartialEq, Eq, Structural)]
pub enum KeyName {
    Meta,
    LControl,
    Backspace,
    Unicode(char),
}

/// What happens to a key: pressed down, let go, or both in turn.
#[derive(Clone, Copy, Debug, PartialEq, Eq, Structural)]
pub enum Direction {
    Press,
    Release,
    Click,
}

/// One synthesized key event.
#[derive(Clone, Copy, Debug, PartialEq, Eq, Structural)]
pub struct Keystroke {
    pub key: KeyName,
    pub direction: Direction,
}

pub open spec fn stroke(key: KeyName, direction: Direction) -> Keystroke {
    Keystroke { key, direction }
}

/// The identifier under which macOS is reported (as `std::env::consts::OS` does).
pub open spec fn is_macos_id(os: Seq<char>) -> bool {
    os == "macos"@
}

pub open spec fn platform_for(os: Seq<char>) -> Platform {
    if is_macos_id(os) {
        Platform::MacOs
    } else {
        Platform::Other
    }
}

/// The keystrokes that copy the current selection.
///
/// On macOS: release Meta, press Meta, click 'c', release Meta.
/// Elsewhere: press Ctrl, click 'c', release Ctrl.
pub open spec fn copy_sequence(p: Platform) -> Seq<Keystroke> {
    match p {
        Platform::MacOs => seq![
            stroke(KeyName::Meta, Direction::Release),
            stroke(KeyName::Meta, Direction::Press),
            stroke(KeyName::Unicode('c'), Direction::Click),
            stroke(KeyName::Meta, Direction::Release),
        ],
        Platform::Other => seq![
            stroke(KeyName::LControl, Direction::Press),
            stroke(KeyName::Unicode('c'), Direction::Click),
            stroke(KeyName::LControl, Direction::Release),
        ],
    }
}

/// The keystrokes that delete the current selection: one click of Backspace.
pub open spec fn delete_sequence() -> Seq<Keystroke> {
    seq![stroke(KeyName::Backspace, Direction::Click)]
}

/// Classifies an operating-system identifier: `"macos"` is macOS, any other
/// identifier belongs to the other family.
pub fn platform_of(os: &str) -> (r: Platform)
    ensures
        r == platform_for(os@),
        r == Platform::MacOs <==> os@ == "macos"@,
        r == Platform::Other <==> os@ != "macos"@,
{
    let given = os.to_owned();
    let mac = "macos".to_owned();
    if given == mac {
        Platform::MacOs
    } else {
        Platform::Other
    }
}

/// The copy keystrokes for a platform.
pub fn copy_keystrokes(p: Platform) -> (r: Vec<Keystroke>)
    ensures
        r@ == copy_sequence(p),
{
    let c = KeyName::Unicode('c');
    match p {
        Platform::MacOs => {
            let r = vec![
                Keystroke { key: KeyName::Meta, direction: Direction::Release },
                Keystroke { key: KeyName::Meta, direction: Direction::Press },
                Keystroke { key: c, direction: Direction::Click },
                Keystroke { key: KeyName::Meta, direction: Direction::Release },
            ];
            assert(r@ =~= copy_sequence(p));
            r
        },
        Platform::Other => {
            let r = vec![
                Keystroke { key: KeyName::LControl, direction: Direction::Press },
                Keystroke { key: c, direction: Direction::Click },
                Keystroke { key: KeyName::LControl, direction: Direction::Release },
            ];
            assert(r@ =~= copy_sequence(p));
            r
        },
    }
}

/// The copy keystrokes for the system named by `os`.
pub fn copy_keystrokes_for(os: &str) -> (r: Vec<Keystroke>)
    ensures
        r@ == copy_sequence(platform_for(os@)),
        os@ == "macos"@ ==> r@ == copy_sequence(Platform::MacOs),
        os@ != "macos"@ ==> r@ == copy_sequence(Platform::Other),
{
    copy_keystrokes(platform_of(os))
}

/// The delete keystrokes.
pub fn delete_keystrokes() -> (r: Vec<Keystroke>)
    ensures
        r@ == delete_sequence(),
{
    let r = vec![Keystroke { key: KeyName::Backspace, direction: Direction::Click }];
    assert(r@ =~= delete_sequence());
    r
}

/// Keystroke synthesis has exactly two branches: every identifier selects the
/// Meta-based copy sequence when it names macOS and the Ctrl-based one otherwise.
pub proof fn lemma_copy_branch(os: Seq<char>)
    ensures
        is_macos_id(os) ==> copy_sequence(platform_for(os))[0].key == KeyName::Meta,
        !is_macos_id(os) ==> copy_sequence(platform_for(os))[0].key == KeyName::LControl,
        platform_for(os) == Platform::MacOs || platform_for(os) == Platform::Other,
        forall|i: int|
            0 <= i < copy_sequence(platform_for(os)).len() ==> {
                let k = #[trigger] copy_sequence(platform_for(os))[i].key;
                if is_macos_id(os) {
                    k != KeyName::LControl
                } else {
                    k != KeyName::Meta
                }
            },
{
}

} // verus!
