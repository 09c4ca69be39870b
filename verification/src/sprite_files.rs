//! Where the game files keep the sprites of the characters, and which of
//! them to load.

use vstd::prelude::*;
use vstd::string::StringExecFns;
use crate::consts::{decode_windows_1252, windows_1252_text};
use crate::systems::Sex;

verus! {

/// The bytes of the name of the folder of the human sprites, in
/// Windows-1252.
pub open spec fn humans_folder_code() -> Seq<u8> {
    seq![0xC0u8, 0xCEu8, 0xB0u8, 0xA3u8, 0xC1u8, 0xB7u8]
}

/// The bytes of the name of the folder of the body sprites, in
/// Windows-1252.
pub open spec fn bodies_folder_code() -> Seq<u8> {
    seq![0xB8u8, 0xF6u8, 0xC5u8, 0xEBu8]
}

/// The two characters that mark the files of a sex.
pub open spec fn sex_mark(sex: Sex) -> Seq<char> {
    match sex {
        Sex::Male => seq!['\u{b3}', '\u{b2}'],
        Sex::Female => seq!['\u{bf}', '\u{a9}'],
    }
}

/// The file of the body sprite of a job and sex, without its extension:
/// `data\sprite\<humans>\<bodies>\<mark>\<job>_<mark>`.
pub open spec fn body_sprite_path(job_name: Seq<char>, sex: Sex) -> Seq<char> {
    "data\\sprite\\"@ + windows_1252_text(humans_folder_code()) + "\\"@ + windows_1252_text(
        bodies_folder_code(),
    ) + "\\"@ + sex_mark(sex) + "\\"@ + job_name + "_"@ + sex_mark(sex)
}

fn sex_mark_of(sex: Sex) -> (mark: &'static str)
    ensures
        mark@ == sex_mark(sex),
{
    match sex {
        Sex::Male => {
            proof {
                reveal_strlit("\u{b3}\u{b2}");
            }
            assert("\u{b3}\u{b2}"@ =~= seq!['\u{b3}', '\u{b2}']);
            "\u{b3}\u{b2}"
        },
        Sex::Female => {
            proof {
                reveal_strlit("\u{bf}\u{a9}");
            }
            assert("\u{bf}\u{a9}"@ =~= seq!['\u{bf}', '\u{a9}']);
            "\u{bf}\u{a9}"
        },
    }
}

/// The file of the body sprite of the job that the game files call
/// `job_name`, for one sex, without its extension.
pub fn body_sprite_file(job_name: &str, sex: Sex) -> (path: String)
    ensures
        path@ == body_sprite_path(job_name@, sex),
{
    let folder1 = decode_windows_1252(vec![0xC0, 0xCE, 0xB0, 0xA3, 0xC1, 0xB7].as_slice());
    let folder2 = decode_windows_1252(vec![0xB8, 0xF6, 0xC5, 0xEB].as_slice());
    let mark = sex_mark_of(sex);
    let mut path = String::from_str("data\\sprite\\");
    path.append(folder1.as_str());
    path.append("\\");
    path.append(folder2.as_str());
    path.append("\\");
    path.append(mark);
    path.append("\\");
    path.append(job_name);
    path.append("_");
    path.append(mark);
    path
}

/// Which sprite files to load for a job.
#[derive(Clone, Copy, Debug, PartialEq, Eq, Structural)]
pub enum SpriteFiles {
    /// The male one, for both sexes.
    MaleForBoth,
    /// The female one, for both sexes.
    FemaleForBoth,
    /// Each sex its own.
    Both,
}

/// Which sprite files to load for a job: each sex its own where both are
/// there; else the one that is there for both sexes, and the male one where
/// none is.
pub fn sprite_files_to_load(male_exists: bool, female_exists: bool) -> (files: SpriteFiles)
    ensures
        files == if !female_exists {
            SpriteFiles::MaleForBoth
        } else if !male_exists {
            SpriteFiles::FemaleForBoth
        } else {
            SpriteFiles::Both
        },
{
    if !female_exists {
        SpriteFiles::MaleForBoth
    } else if !male_exists {
        SpriteFiles::FemaleForBoth
    } else {
        SpriteFiles::Both
    }
}

} // verus!
