//! Short remarks for the user interface, drawn at random from fixed tables.

use vstd::prelude::*;
use vstd::string::*;
use rand::Rng;
use crate::text::text_equal;

verus! {

pub const JOKES_PER_KIND: usize = 10;

/// The occasions that have remarks of their own.
#[derive(Clone, Copy, Debug, PartialEq, Eq, Structural)]
pub enum JokeKind {
    General,
    Encryption,
    Decryption,
    Error,
    Success,
}

/// The remark at a place of a table. Each table has ten.
pub open spec fn joke_text(kind: JokeKind, index: usize) -> Seq<char> {
    match kind {
        JokeKind::General => match index {
            0 => "Encrypting your files, because therapy is too expensive."@,
            1 => "Deleting files like your ex deletes your number."@,
            2 => "Keeping files? Bold move. Hope you don't regret it."@,
            3 => "Erasing traces like a pro—no one will ever know you had that file. Probably."@,
            4 => "Remember: If you forget your password, not even your future self can save you."@,
            5 => "Securing your data like it's nuclear launch codes."@,
            6 => "Your files are now safer than your emotional walls."@,
            7 => "Making your data disappear like your motivation on Monday."@,
            8 => "Encryption: Because apparently trust issues extend to filesystems."@,
            _ => "Your secrets are now as secure as your dating life is chaotic."@,
        },
        JokeKind::Encryption => match index {
            0 => "Hiding your secrets better than your browser history..."@,
            1 => "Making your files more mysterious than your dating life"@,
            2 => "Encrypting... Because apparently trust issues extend to filesystems"@,
            3 => "Securing your data like it's nuclear launch codes"@,
            4 => "Your files are now safer than your emotional walls"@,
            5 => "Encrypting with the paranoia of a conspiracy theorist"@,
            6 => "Making your data disappear like your motivation on Monday"@,
            7 => "Securing files like they contain your deepest darkest secrets"@,
            8 => "Encryption in progress... Your paranoia is now digitally validated"@,
            _ => "Making your files more secure than your ex's new relationship"@,
        },
        JokeKind::Decryption => match index {
            0 => "Unlocking secrets... This better not be another folder of cat memes"@,
            1 => "Decrypting... Hope you remember this password better than your anniversary"@,
            2 => "Breaking the code... No, not your moral code, the encryption one"@,
            3 => "Unlocking your files like a digital locksmith"@,
            4 => "Decrypting... Because apparently you trust yourself now"@,
            5 => "Unlocking secrets that were safer than your dating choices"@,
            6 => "Decrypting with the hope that you didn't forget the password"@,
            7 => "Breaking the encryption like it's a bad habit"@,
            8 => "Unlocking files... Your digital vault is about to spill its secrets"@,
            _ => "Decrypting... Time to see what you were hiding from yourself"@,
        },
        JokeKind::Error => match index {
            0 => "Something went wrong... It's not you, it's definitely the code"@,
            1 => "Error encountered... Even our errors are encrypted apparently"@,
            2 => "File not found... Much like my motivation on Monday mornings"@,
            3 => "Operation failed... Like my attempts at adulting"@,
            4 => "Error occurred... Because apparently nothing can go smoothly"@,
            5 => "Something broke... Probably your will to live"@,
            6 => "Error detected... Much like the errors in my life choices"@,
            7 => "Operation failed... Like my diet plans"@,
            8 => "Error encountered... Because perfection is overrated"@,
            _ => "Something went wrong... Welcome to the club"@,
        },
        JokeKind::Success => match index {
            0 => "Mission accomplished... Your paranoia is now digitally validated"@,
            1 => "Files secured... They're safer than your emotional walls now"@,
            2 => "Operation successful... Like that one time you made good life choices"@,
            3 => "Task completed... Your secrets are now properly hidden"@,
            4 => "Success achieved... Your files are now more secure than your ex's new relationship"@,
            5 => "Mission accomplished... Your data is now as mysterious as your dating life"@,
            6 => "Operation successful... Your paranoia has been justified"@,
            7 => "Task completed... Your files are now safer than your browser history"@,
            8 => "Success achieved... Your secrets are now properly encrypted"@,
            _ => "Mission accomplished... Your data is now as secure as your emotional walls"@,
        },
    }
}

/// Whether a text is one of the ten remarks of a kind.
pub open spec fn is_joke_of(kind: JokeKind, text: Seq<char>) -> bool {
    exists|index: usize| index < 10 && text == #[trigger] joke_text(kind, index)
}

/// The remark at a place of a table.
pub fn joke_at(kind: JokeKind, index: usize) -> (text: &'static str)
    requires
        index < 10,
    ensures
        text@ == joke_text(kind, index),
{
    match kind {
        JokeKind::General => match index {
            0 => "Encrypting your files, because therapy is too expensive.",
            1 => "Deleting files like your ex deletes your number.",
            2 => "Keeping files? Bold move. Hope you don't regret it.",
            3 => "Erasing traces like a pro—no one will ever know you had that file. Probably.",
            4 => "Remember: If you forget your password, not even your future self can save you.",
            5 => "Securing your data like it's nuclear launch codes.",
            6 => "Your files are now safer than your emotional walls.",
            7 => "Making your data disappear like your motivation on Monday.",
            8 => "Encryption: Because apparently trust issues extend to filesystems.",
            _ => "Your secrets are now as secure as your dating life is chaotic.",
        },
        JokeKind::Encryption => match index {
            0 => "Hiding your secrets better than your browser history...",
            1 => "Making your files more mysterious than your dating life",
            2 => "Encrypting... Because apparently trust issues extend to filesystems",
            3 => "Securing your data like it's nuclear launch codes",
            4 => "Your files are now safer than your emotional walls",
            5 => "Encrypting with the paranoia of a conspiracy theorist",
            6 => "Making your data disappear like your motivation on Monday",
            7 => "Securing files like they contain your deepest darkest secrets",
            8 => "Encryption in progress... Your paranoia is now digitally validated",
            _ => "Making your files more secure than your ex's new relationship",
        },
        JokeKind::Decryption => match index {
            0 => "Unlocking secrets... This better not be another folder of cat memes",
            1 => "Decrypting... Hope you remember this password better than your anniversary",
            2 => "Breaking the code... No, not your moral code, the encryption one",
            3 => "Unlocking your files like a digital locksmith",
            4 => "Decrypting... Because apparently you trust yourself now",
            5 => "Unlocking secrets that were safer than your dating choices",
            6 => "Decrypting with the hope that you didn't forget the password",
            7 => "Breaking the encryption like it's a bad habit",
            8 => "Unlocking files... Your digital vault is about to spill its secrets",
            _ => "Decrypting... Time to see what you were hiding from yourself",
        },
        JokeKind::Error => match index {
            0 => "Something went wrong... It's not you, it's definitely the code",
            1 => "Error encountered... Even our errors are encrypted apparently",
            2 => "File not found... Much like my motivation on Monday mornings",
            3 => "Operation failed... Like my attempts at adulting",
            4 => "Error occurred... Because apparently nothing can go smoothly",
            5 => "Something broke... Probably your will to live",
            6 => "Error detected... Much like the errors in my life choices",
            7 => "Operation failed... Like my diet plans",
            8 => "Error encountered... Because perfection is overrated",
            _ => "Something went wrong... Welcome to the club",
        },
        JokeKind::Success => match index {
            0 => "Mission accomplished... Your paranoia is now digitally validated",
            1 => "Files secured... They're safer than your emotional walls now",
            2 => "Operation successful... Like that one time you made good life choices",
            3 => "Task completed... Your secrets are now properly hidden",
            4 => "Success achieved... Your files are now more secure than your ex's new relationship",
            5 => "Mission accomplished... Your data is now as mysterious as your dating life",
            6 => "Operation successful... Your paranoia has been justified",
            7 => "Task completed... Your files are now safer than your browser history",
            8 => "Success achieved... Your secrets are now properly encrypted",
            _ => "Mission accomplished... Your data is now as secure as your emotional walls",
        },
    }
}

/// Draws an index below `bound` from `rand::thread_rng` with
/// `Rng::gen_range`. Claims only that the index is below the bound; the
/// bound is positive because the call panics on an empty range.
#[verifier::external_body]
fn random_index(bound: usize) -> (index: usize)
    requires
        bound > 0,
    ensures
        index < bound,
{
    rand::thread_rng().gen_range(0..bound)
}

/// A remark of the given kind, drawn at random.
pub fn random_joke_of(kind: JokeKind) -> (text: String)
    ensures
        is_joke_of(kind, text@),
{
    let index: usize = random_index(JOKES_PER_KIND);
    String::from_str(joke_at(kind, index))
}

pub fn get_random_joke() -> (text: String)
    ensures
        is_joke_of(JokeKind::General, text@),
{
    random_joke_of(JokeKind::General)
}

pub fn get_encryption_joke() -> (text: String)
    ensures
        is_joke_of(JokeKind::Encryption, text@),
{
    random_joke_of(JokeKind::Encryption)
}

pub fn get_decryption_joke() -> (text: String)
    ensures
        is_joke_of(JokeKind::Decryption, text@),
{
    random_joke_of(JokeKind::Decryption)
}

pub fn get_error_joke() -> (text: String)
    ensures
        is_joke_of(JokeKind::Error, text@),
{
    random_joke_of(JokeKind::Error)
}

pub fn get_success_joke() -> (text: String)
    ensures
        is_joke_of(JokeKind::Success, text@),
{
    random_joke_of(JokeKind::Success)
}

/// The kind of remark that a context asks for: its own where the context
/// is `encryption`, `decryption`, `error` or `success`, a general one
/// otherwise.
pub open spec fn context_kind(context: Seq<char>) -> JokeKind {
    if context == "encryption"@ {
        JokeKind::Encryption
    } else if context == "decryption"@ {
        JokeKind::Decryption
    } else if context == "error"@ {
        JokeKind::Error
    } else if context == "success"@ {
        JokeKind::Success
    } else {
        JokeKind::General
    }
}

/// A remark that fits the context, drawn at random.
pub fn get_contextual_joke(context: &str) -> (text: String)
    ensures
        is_joke_of(context_kind(context@), text@),
{
    if text_equal(context, "encryption") {
        get_encryption_joke()
    } else if text_equal(context, "decryption") {
        get_decryption_joke()
    } else if text_equal(context, "error") {
        get_error_joke()
    } else if text_equal(context, "success") {
        get_success_joke()
    } else {
        get_random_joke()
    }
}

/// The quarter of the work that is under way.
#[derive(Clone, Copy, Debug, PartialEq, Eq, Structural)]
pub enum ProgressQuarter {
    First,
    Second,
    Third,
    Fourth,
}

pub const JOKES_PER_QUARTER: usize = 3;

/// The remark at a place of a quarter's table. Each table has three.
pub open spec fn progress_joke_text(quarter: ProgressQuarter, index: usize) -> Seq<char> {
    match quarter {
        ProgressQuarter::First => match index {
            0 => "Just getting started... Like your morning motivation"@,
            1 => "Beginning the process... Because apparently we can't rush perfection"@,
            _ => "Starting up... Like your computer on a Monday morning"@,
        },
        ProgressQuarter::Second => match index {
            0 => "Making progress... Unlike your life goals"@,
            1 => "Halfway there... Like your attempts at adulting"@,
            _ => "Getting there... Slowly but surely, like your career"@,
        },
        ProgressQuarter::Third => match index {
            0 => "Almost done... Like your patience"@,
            1 => "Nearly finished... Unlike your to-do list"@,
            _ => "Getting close... Like your relationship with productivity"@,
        },
        ProgressQuarter::Fourth => match index {
            0 => "Almost there... Like your will to live"@,
            1 => "Nearly complete... Unlike your life plans"@,
            _ => "Finishing up... Like your motivation for the day"@,
        },
    }
}

/// The remark at a place of a quarter's table.
pub fn progress_joke_at(quarter: ProgressQuarter, index: usize) -> (text: &'static str)
    requires
        index < 3,
    ensures
        text@ == progress_joke_text(quarter, index),
{
    match quarter {
        ProgressQuarter::First => match index {
            0 => "Just getting started... Like your morning motivation",
            1 => "Beginning the process... Because apparently we can't rush perfection",
            _ => "Starting up... Like your computer on a Monday morning",
        },
        ProgressQuarter::Second => match index {
            0 => "Making progress... Unlike your life goals",
            1 => "Halfway there... Like your attempts at adulting",
            _ => "Getting there... Slowly but surely, like your career",
        },
        ProgressQuarter::Third => match index {
            0 => "Almost done... Like your patience",
            1 => "Nearly finished... Unlike your to-do list",
            _ => "Getting close... Like your relationship with productivity",
        },
        ProgressQuarter::Fourth => match index {
            0 => "Almost there... Like your will to live",
            1 => "Nearly complete... Unlike your life plans",
            _ => "Finishing up... Like your motivation for the day",
        },
    }
}

/// A remark on the quarter of the work that is under way, drawn at random.
pub fn get_progress_joke(quarter: ProgressQuarter) -> (text: String)
    ensures
        exists|index: usize| index < 3 && text@ == #[trigger] progress_joke_text(quarter, index),
{
    let index: usize = random_index(JOKES_PER_QUARTER);
    String::from_str(progress_joke_at(quarter, index))
}

} // verus!
