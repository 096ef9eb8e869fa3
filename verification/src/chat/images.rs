//! Generated images: their file names, what a turn saved of them, and finding them again in a conversation.

use vstd::prelude::*;
use vstd::string::*;

use crate::app::{file_name, join_path, name_in, path_join};
use crate::map::{views, Duplicate};
use crate::message::{
    copy_bytes, is_image_file, role_of, Attachment, FileView, Message, MessageView, Role,
};
use crate::text::{
    begins, decimal, decimal_is_digits, decimal_of, is_digit, own, push_text, same, strs,
};

verus! {

/// Widest picture the transcript draws, in columns.
pub const IMAGE_MAX_COLS: usize = 72;

/// Tallest picture the transcript draws, in rows.
pub const IMAGE_MAX_ROWS: usize = 14;

/// The picture's and its caption's indent.
pub const IMAGE_INDENT_COLS: usize = 2;

/// The error text when no home directory is known.
pub const HOME_NOT_DEFINED: &'static str = "$HOME is not defined";

/// The position of the newest user message; -1 when there is none.
pub open spec fn newest_user(history: Seq<MessageView>) -> int
    decreases history.len(),
{
    if history.len() == 0 {
        -1
    } else if role_of(history.last()) == Role::User {
        history.len() - 1
    } else {
        newest_user(history.drop_last())
    }
}

/// The newest user message.
pub fn last_user_message(history: &Vec<Message>) -> (r: Option<&Message>)
    ensures
        match r {
            Some(m) => 0 <= newest_user(views(history@)) < history@.len() && *m
                == history@[newest_user(views(history@))],
            None => newest_user(views(history@)) == -1,
        },
{
    let ghost all = views(history@);
    let mut k: usize = history.len();
    assert(all.take(k as int) =~= all);
    while k > 0
        invariant
            k <= history.len(),
            all == views(history@),
            newest_user(all) == newest_user(all.take(k as int)),
        decreases k,
    {
        assert(all.take(k as int).drop_last() =~= all.take(k - 1));
        assert(all.take(k as int).last() == history@[k - 1]@);
        if history[k - 1].role() == Role::User {
            return Some(&history[k - 1]);
        }
        k -= 1;
    }
    None
}

/// The images among some files, in order.
pub open spec fn images_in(files: Seq<FileView>) -> Seq<FileView>
    decreases files.len(),
{
    if files.len() == 0 {
        Seq::empty()
    } else if is_image_file(files.last()) {
        images_in(files.drop_last()).push(files.last())
    } else {
        images_in(files.drop_last())
    }
}

/// The images of the newest assistant message that carries any.
pub open spec fn newest_images(history: Seq<MessageView>) -> Seq<FileView>
    decreases history.len(),
{
    if history.len() == 0 {
        Seq::empty()
    } else if role_of(history.last()) == Role::Assistant && images_in(
        history.last().attachments,
    ).len() > 0 {
        images_in(history.last().attachments)
    } else {
        newest_images(history.drop_last())
    }
}

/// The images among some files, in order.
fn pick_images(files: &Vec<Attachment>) -> (r: Vec<Attachment>)
    ensures
        views(r@) == images_in(views(files@)),
{
    let ghost all = views(files@);
    let mut r: Vec<Attachment> = Vec::new();
    assert(all.take(0) =~= Seq::<FileView>::empty());
    assert(views(r@) =~= Seq::<FileView>::empty());
    for i in 0..files.len()
        invariant
            all == views(files@),
            views(r@) == images_in(all.take(i as int)),
    {
        assert(all.take(i + 1).drop_last() =~= all.take(i as int));
        assert(all.take(i + 1).last() == files@[i as int]@);
        if files[i].is_image() {
            let ghost was = views(r@);
            let copy: Attachment = files[i].duplicate();
            r.push(copy);
            assert(views(r@) =~= was.push(files@[i as int]@));
        }
    }
    assert(all.take(all.len() as int) =~= all);
    r
}

/// The image attachments of the newest assistant message that carries any.
pub fn last_generated_images(history: &Vec<Message>) -> (r: Vec<Attachment>)
    ensures
        views(r@) == newest_images(views(history@)),
{
    let ghost all = views(history@);
    let mut k: usize = history.len();
    assert(all.take(k as int) =~= all);
    while k > 0
        invariant
            k <= history.len(),
            all == views(history@),
            newest_images(all) == newest_images(all.take(k as int)),
        decreases k,
    {
        assert(all.take(k as int).drop_last() =~= all.take(k - 1));
        assert(all.take(k as int).last() == history@[k - 1]@);
        if history[k - 1].role() == Role::Assistant {
            let found: Vec<Attachment> = pick_images(&history[k - 1].attachments);
            assert(views(found@).len() == found@.len());
            if found.len() > 0 {
                return found;
            }
        }
        k -= 1;
    }
    let none: Vec<Attachment> = Vec::new();
    assert(views(none@) =~= Seq::<FileView>::empty());
    none
}

/// The extension of a media type.
pub open spec fn ext_of(mime: Seq<char>) -> Seq<char> {
    if mime == "image/png"@ {
        "png"@
    } else if mime == "image/jpeg"@ {
        "jpg"@
    } else if mime == "image/webp"@ {
        "webp"@
    } else if mime == "image/gif"@ {
        "gif"@
    } else {
        "bin"@
    }
}

/// The extension of a media type.
pub fn image_ext(mime: &str) -> (r: &'static str)
    ensures
        r@ == ext_of(mime@),
{
    if same(mime, "image/png") {
        "png"
    } else if same(mime, "image/jpeg") {
        "jpg"
    } else if same(mime, "image/webp") {
        "webp"
    } else if same(mime, "image/gif") {
        "gif"
    } else {
        "bin"
    }
}

/// `<stamp>-<seq>.<ext>`.
pub open spec fn image_file(stamp: Seq<char>, seq: nat, mime: Seq<char>) -> Seq<char> {
    stamp + "-"@ + decimal_of(seq) + "."@ + ext_of(mime)
}

/// Whether a text is a time as it stands in a file name: a year, then month and day, a dash, and the hours, minutes
/// and seconds, all of it digits but for that dash and a sign before the year.
pub open spec fn is_stamp(s: Seq<char>) -> bool {
    &&& s.len() >= 15
    &&& s[s.len() - 7] == '-'
    &&& forall|i: int|
        s.len() - 11 <= i < s.len() && i != s.len() - 7 ==> is_digit(#[trigger] s[i])
    &&& forall|i: int| 0 <= i < s.len() ==> is_digit(#[trigger] s[i]) || s[i] == '-'
}

/// Whether `p` is a path that the image at `seq` can be saved to in `dir`: the file named after some time.
pub open spec fn image_place(dir: Seq<char>, seq: nat, mime: Seq<char>, p: Seq<char>) -> bool {
    exists|stamp: Seq<char>| is_stamp(stamp) && p == path_join(dir, #[trigger] image_file(stamp, seq, mime))
}

/// A name behind a directory and one separator.
pub open spec fn inside(dir: Seq<char>, name: Seq<char>) -> Seq<char> {
    if dir.last() == '/' {
        dir + name
    } else {
        dir.push('/') + name
    }
}

/// An image is saved inside its directory: the path is the directory, a separator, and a file name that leads no
/// further down and not out of it.
pub proof fn images_stay_in_their_directory(dir: Seq<char>, seq: nat, mime: Seq<char>, p: Seq<char>)
    requires
        dir.len() > 0,
        image_place(dir, seq, mime, p),
    ensures
        exists|name: Seq<char>|
            {
                &&& name.len() > 2
                &&& !name.contains('/')
                &&& p == #[trigger] inside(dir, name)
            },
{
    let stamp = choose|stamp: Seq<char>|
        is_stamp(stamp) && p == path_join(dir, #[trigger] image_file(stamp, seq, mime));
    let name = image_file(stamp, seq, mime);
    let number = decimal_of(seq);
    let ext = ext_of(mime);
    reveal_strlit("-");
    reveal_strlit(".");
    reveal_strlit("/");
    reveal_strlit("png");
    reveal_strlit("jpg");
    reveal_strlit("webp");
    reveal_strlit("gif");
    reveal_strlit("bin");
    decimal_is_digits(seq);
    assert forall|i: int| 0 <= i < name.len() implies name[i] != '/' by {
        let a = stamp.len() as int;
        let b = a + 1 + number.len();
        if i < a {
            assert(name[i] == stamp[i]);
        } else if i == a {
            assert(name[i] == '-');
        } else if i < b {
            assert(name[i] == number[i - a - 1]);
        } else if i == b {
            assert(name[i] == '.');
        } else {
            assert(name[i] == ext[i - b - 1]);
        }
    }
    assert(!begins(name, "/"@)) by {
        assert(name.subrange(0, 1)[0] == name[0]);
    }
    assert(dir + "/"@ + name =~= dir.push('/') + name);
    assert(p == inside(dir, name));
}

/// `jiff::Zoned::now` printed with `strftime`: the local time as `YYYYMMDD-HHMMSS`. Of the text only its form is
/// said: the year is padded with zeros to four characters, a sign before it counted, and every other field to
/// two. Which time it is depends on the clock and on the time zone of the machine.
#[verifier::external_body]
fn now_stamp() -> (r: String)
    ensures
        is_stamp(r@),
{
    jiff::Zoned::now().strftime("%Y%m%d-%H%M%S").to_string()
}

/// Saves an image through `write`, under a name of its own in `dir`. `write` gets the path and the image, and
/// gives the absolute path or the text of the failure. Without a directory nothing is written.
pub fn save_image<W: FnOnce(&String, &Attachment) -> Result<String, String>>(
    att: &Attachment,
    dir: &Option<String>,
    seq: u64,
    write: W,
) -> (r: Result<String, String>)
    requires
        *dir matches Some(d) ==> forall|p: &String|
            image_place(d@, seq as nat, att.mime_type@, p@) ==> #[trigger] write.requires((p, att)),
    ensures
        match *dir {
            None => r matches Err(e) && e@ == HOME_NOT_DEFINED@,
            Some(d) => exists|p: &String|
                image_place(d@, seq as nat, att.mime_type@, p@) && #[trigger] write.ensures(
                    (p, att),
                    r,
                ),
        },
{
    match dir {
        None => Err(own(HOME_NOT_DEFINED)),
        Some(d) => {
            let path: String = image_path(d.as_str(), seq, att.mime_type.as_str());
            write(&path, att)
        },
    }
}

/// The path that an image is saved to now.
fn image_path(dir: &str, seq: u64, mime: &str) -> (p: String)
    ensures
        image_place(dir@, seq as nat, mime@, p@),
{
    let stamp: String = now_stamp();
    let name: String = image_name(stamp.as_str(), seq, mime);
    let p: String = join_path(dir, name.as_str());
    assert(p@ == path_join(dir@, image_file(stamp@, seq as nat, mime@)));
    p
}

/// The file name of an image: the time it was saved at, its place among the turn's images, and its extension.
pub fn image_name(stamp: &str, seq: u64, mime: &str) -> (r: String)
    ensures
        r@ == image_file(stamp@, seq as nat, mime@),
{
    let mut r: String = own(stamp);
    r.append("-");
    r.append(decimal(seq).as_str());
    r.append(".");
    r.append(image_ext(mime));
    r
}

/// What one turn's image saves produced.
pub struct SavedImages {
    /// The SAVED images, each named after the file it was saved to.
    pub attachments: Vec<Attachment>,
    /// The paths of the images that were saved.
    pub paths: Vec<String>,
    /// One line for each image whose save failed.
    pub failures: Vec<String>,
}

/// The file name of a path; empty for one that names no file.
pub open spec fn base_name(path: Seq<char>) -> Seq<char> {
    match name_in(path) {
        Some(n) => n,
        None => Seq::empty(),
    }
}

/// What the first `n` saves attach: of each image that was saved, its own data under the name of its file.
pub open spec fn saved_files(
    images: Seq<FileView>,
    saves: Seq<Result<String, String>>,
    n: int,
) -> Seq<FileView>
    decreases n,
{
    if n <= 0 || n > images.len() || n > saves.len() {
        Seq::empty()
    } else {
        match saves[n - 1] {
            Ok(path) => saved_files(images, saves, n - 1).push(
                FileView { filename: base_name(path@), ..images[n - 1] },
            ),
            Err(_) => saved_files(images, saves, n - 1),
        }
    }
}

/// The paths of the first `n` saves that succeeded.
pub open spec fn saved_paths(saves: Seq<Result<String, String>>, n: int) -> Seq<Seq<char>>
    decreases n,
{
    if n <= 0 || n > saves.len() {
        Seq::empty()
    } else {
        match saves[n - 1] {
            Ok(path) => saved_paths(saves, n - 1).push(path@),
            Err(_) => saved_paths(saves, n - 1),
        }
    }
}

/// The lines about the first `n` saves that failed.
pub open spec fn failed_saves(saves: Seq<Result<String, String>>, n: int) -> Seq<Seq<char>>
    decreases n,
{
    if n <= 0 || n > saves.len() {
        Seq::empty()
    } else {
        match saves[n - 1] {
            Ok(_) => failed_saves(saves, n - 1),
            Err(e) => failed_saves(saves, n - 1).push("saving image failed: "@ + e@),
        }
    }
}

/// Every save is accounted for: it gave a path or a line about its failure, and never both.
pub proof fn every_save_is_reported(saves: Seq<Result<String, String>>, n: int)
    requires
        0 <= n <= saves.len(),
    ensures
        saved_paths(saves, n).len() + failed_saves(saves, n).len() == n,
    decreases n,
{
    if n > 0 {
        every_save_is_reported(saves, n - 1);
    }
}

/// What a turn's saves produced, given what saving each image gave: the path it was saved to, or the text of
/// the failure. A failure never stops the next save, and an image that was not saved is not attached.
pub fn gather_saves(images: &Vec<Attachment>, saves: &Vec<Result<String, String>>) -> (r:
    SavedImages)
    requires
        images@.len() == saves@.len(),
    ensures
        views(r.attachments@) == saved_files(views(images@), saves@, saves@.len() as int),
        strs(r.paths@) == saved_paths(saves@, saves@.len() as int),
        strs(r.failures@) == failed_saves(saves@, saves@.len() as int),
{
    let ghost all = views(images@);
    let mut attachments: Vec<Attachment> = Vec::new();
    let mut paths: Vec<String> = Vec::new();
    let mut failures: Vec<String> = Vec::new();
    assert(views(attachments@) =~= Seq::<FileView>::empty());
    assert(strs(paths@) =~= Seq::<Seq<char>>::empty());
    assert(strs(failures@) =~= Seq::<Seq<char>>::empty());
    for i in 0..saves.len()
        invariant
            images@.len() == saves@.len(),
            all == views(images@),
            views(attachments@) == saved_files(all, saves@, i as int),
            strs(paths@) == saved_paths(saves@, i as int),
            strs(failures@) == failed_saves(saves@, i as int),
    {
        match &saves[i] {
            Ok(path) => {
                let filename: String = match file_name(path.as_str()) {
                    Some(n) => n,
                    None => String::new(),
                };
                assert(filename@ =~= base_name(path@));
                let ghost was = views(attachments@);
                let saved = Attachment {
                    filename,
                    mime_type: images[i].mime_type.clone(),
                    data: copy_bytes(&images[i].data),
                };
                assert(all[i as int] == images@[i as int]@);
                attachments.push(saved);
                assert(views(attachments@) =~= was.push(saved@));
                push_text(&mut paths, path.clone());
            },
            Err(e) => {
                let mut line: String = own("saving image failed: ");
                line.append(e.as_str());
                push_text(&mut failures, line);
            },
        }
    }
    SavedImages { attachments, paths, failures }
}

/// Whether `saved` is what saving `att` as the image at `seq` can give: the failure that there is no directory, or
/// what `write` gave for a path in it.
pub open spec fn is_save<W: Fn(&String, &Attachment) -> Result<String, String>>(
    write: W,
    dir: Option<String>,
    seq: nat,
    att: Attachment,
    saved: Result<String, String>,
) -> bool {
    match dir {
        None => saved matches Err(e) && e@ == HOME_NOT_DEFINED@,
        Some(d) => exists|p: &String|
            image_place(d@, seq, att.mime_type@, p@) && #[trigger] write.ensures((p, &att), saved),
    }
}

/// Whether `p` is a path that the image at `i` of a turn can be saved to in `dir`.
pub open spec fn turn_place(dir: Seq<char>, images: Seq<Attachment>, i: int, p: Seq<char>) -> bool {
    0 <= i < images.len() && image_place(dir, i as nat, images[i].mime_type@, p)
}

/// Saves the images of a turn through `write`, one after the other. A failure never stops the next save, and an
/// image that was not saved is not attached; without a directory nothing is written, and every image has its
/// line about that.
pub fn save_images_for_turn<W: Fn(&String, &Attachment) -> Result<String, String>>(
    images: &Vec<Attachment>,
    dir: &Option<String>,
    write: &W,
) -> (r: SavedImages)
    requires
        *dir matches Some(d) ==> forall|p: &String, i: int|
            #[trigger] turn_place(d@, images@, i, p@) ==> write.requires((p, &images@[i])),
    ensures
        exists|saves: Seq<Result<String, String>>|
            {
                &&& saves.len() == images@.len()
                &&& forall|i: int|
                    0 <= i < saves.len() ==> is_save(
                        *write,
                        *dir,
                        i as nat,
                        images@[i],
                        #[trigger] saves[i],
                    )
                &&& views(r.attachments@) == #[trigger] saved_files(
                    views(images@),
                    saves,
                    saves.len() as int,
                )
                &&& strs(r.paths@) == saved_paths(saves, saves.len() as int)
                &&& strs(r.failures@) == failed_saves(saves, saves.len() as int)
            },
        r.attachments@.len() == r.paths@.len(),
        r.paths@.len() + r.failures@.len() == images@.len(),
        *dir is None ==> r.paths@.len() == 0 && strs(r.failures@) == Seq::new(
            images@.len(),
            |i: int| "saving image failed: "@ + HOME_NOT_DEFINED@,
        ),
{
    let mut saves: Vec<Result<String, String>> = Vec::new();
    for i in 0..images.len()
        invariant
            *dir matches Some(d) ==> forall|p: &String, i: int|
                #[trigger] turn_place(d@, images@, i, p@) ==> write.requires((p, &images@[i])),
            saves@.len() == i,
            forall|k: int|
                0 <= k < i ==> is_save(*write, *dir, k as nat, images@[k], #[trigger] saves@[k]),
    {
        let saved: Result<String, String> = match dir {
            None => Err(own(HOME_NOT_DEFINED)),
            Some(d) => {
                let path: String = image_path(d.as_str(), i as u64, images[i].mime_type.as_str());
                assert(turn_place(d@, images@, i as int, path@));
                write(&path, &images[i])
            },
        };
        assert(is_save(*write, *dir, i as nat, images@[i as int], saved));
        saves.push(saved);
    }
    let r: SavedImages = gather_saves(images, &saves);
    proof {
        let n = saves@.len() as int;
        every_save_is_reported(saves@, n);
        attached_with_paths(views(images@), saves@, n);
        assert(views(r.attachments@).len() == r.attachments@.len());
        assert(strs(r.paths@).len() == r.paths@.len());
        assert(strs(r.failures@).len() == r.failures@.len());
        if *dir is None {
            nothing_saved(saves@, n);
        }
    }
    r
}

/// What is attached is what has a path.
proof fn attached_with_paths(images: Seq<FileView>, saves: Seq<Result<String, String>>, n: int)
    requires
        0 <= n <= saves.len() == images.len(),
    ensures
        saved_files(images, saves, n).len() == saved_paths(saves, n).len(),
    decreases n,
{
    if n > 0 {
        attached_with_paths(images, saves, n - 1);
    }
}

/// Saves that all failed for want of a directory.
proof fn nothing_saved(saves: Seq<Result<String, String>>, n: int)
    requires
        0 <= n <= saves.len(),
        forall|i: int|
            0 <= i < saves.len() ==> ((#[trigger] saves[i]) matches Err(e) && e@
                == HOME_NOT_DEFINED@),
    ensures
        saved_paths(saves, n).len() == 0,
        failed_saves(saves, n) == Seq::new(
            n as nat,
            |i: int| "saving image failed: "@ + HOME_NOT_DEFINED@,
        ),
    decreases n,
{
    if n > 0 {
        nothing_saved(saves, n - 1);
        assert(saves[n - 1] is Err);
    }
    assert(failed_saves(saves, n) =~= Seq::new(
        n as nat,
        |i: int| "saving image failed: "@ + HOME_NOT_DEFINED@,
    ));
}

} // verus!
