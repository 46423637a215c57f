//! The history and watch-later files: one video per line, written as
//! `title<>ID<>id<>CHAN<>channel`, newest at the end.
use vstd::prelude::*;
use crate::text::{contains_seq, find_first, find_in, substring, chars_of, lemma_find_first, occurs_at};
use crate::video::{Video, VideoView, light_view};
use crate::unique::{dedup_by, unique_by_id, video_id, lemma_dedup_map};

verus! {

/// The separator between the title and the id of an entry.
pub open spec fn id_sep() -> Seq<char> {
    seq!['<', '>', 'I', 'D', '<', '>']
}

/// The separator between the id and the channel of an entry.
pub open spec fn chan_sep() -> Seq<char> {
    seq!['<', '>', 'C', 'H', 'A', 'N', '<', '>']
}

/// The text of `s` before the first occurrence of `sep`, or all of `s`.
pub open spec fn before_sep(s: Seq<char>, sep: Seq<char>) -> Seq<char> {
    if find_first(s, sep) == -1 {
        s
    } else {
        s.take(find_first(s, sep))
    }
}

/// The text of `s` after the first occurrence of `sep`.
pub open spec fn after_sep(s: Seq<char>, sep: Seq<char>) -> Seq<char> {
    s.skip(find_first(s, sep) + sep.len())
}

/// The second piece when `s` is split at every occurrence of `sep`.
pub open spec fn second_piece(s: Seq<char>, sep: Seq<char>) -> Seq<char> {
    before_sep(after_sep(s, sep), sep)
}

/// A line can be read as an entry: it has an id separator, and the piece
/// after it has a channel separator.
pub open spec fn entry_parsable(line: Seq<char>) -> bool {
    &&& contains_seq(line, id_sep())
    &&& contains_seq(second_piece(line, id_sep()), chan_sep())
}

/// The title, id and channel that a line is read as.
pub open spec fn entry_fields(line: Seq<char>) -> (Seq<char>, Seq<char>, Seq<char>) {
    let rest = second_piece(line, id_sep());
    (before_sep(line, id_sep()), before_sep(rest, chan_sep()), second_piece(rest, chan_sep()))
}

/// The line that records a video.
pub open spec fn entry_text(title: Seq<char>, id: Seq<char>, chan: Seq<char>) -> Seq<char> {
    title + id_sep() + id + chan_sep() + chan
}

/// The video that a line of the file stands for; a line that could not be
/// read stands for a video whose fields all say "error".
pub open spec fn entry_video(line: Option<Seq<char>>) -> VideoView {
    match line {
        Some(l) => {
            let f = entry_fields(l);
            light_view(f.0, f.1, f.2)
        },
        None => light_view("error"@, "error"@, "error"@),
    }
}

/// Every line that could be read can be read as an entry.
pub open spec fn lines_parsable(lines: Seq<Option<String>>) -> bool {
    forall|i: int| 0 <= i < lines.len() && (#[trigger] lines[i]) is Some ==> entry_parsable(lines[i]->0@)
}

/// The videos of a file, newest first, and their titles.
pub open spec fn loaded_list(lines: Seq<Option<String>>, vids: Seq<Video>, titles: Seq<String>) -> bool {
    &&& vids.len() == lines.len()
    &&& titles.len() == lines.len()
    &&& forall|i: int| 0 <= i < lines.len() ==> {
        let line = lines[lines.len() - 1 - i];
        #[trigger] vids[i]@ == entry_video(match line { Some(l) => Some(l@), None => None })
    }
    &&& forall|i: int| 0 <= i < lines.len() ==> #[trigger] titles[i]@ == vids[i].title@
}

fn id_sep_chars() -> (v: Vec<char>)
    ensures
        v@ == id_sep(),
{
    let v = vec!['<', '>', 'I', 'D', '<', '>'];
    assert(v@ =~= id_sep());
    v
}

fn chan_sep_chars() -> (v: Vec<char>)
    ensures
        v@ == chan_sep(),
{
    let v = vec!['<', '>', 'C', 'H', 'A', 'N', '<', '>'];
    assert(v@ =~= chan_sep());
    v
}

/// The line written to the history or watch-later file for a video.
pub fn entry_line(title: &str, id: &str, chan: &str) -> (r: String)
    ensures
        r@ == entry_text(title@, id@, chan@),
{
    proof {
        reveal_strlit("<>ID<>");
        reveal_strlit("<>CHAN<>");
    }
    let mut r = String::from_str(title);
    r.append("<>ID<>");
    r.append(id);
    r.append("<>CHAN<>");
    r.append(chan);
    assert("<>ID<>"@ =~= id_sep());
    assert("<>CHAN<>"@ =~= chan_sep());
    r
}


/// Cuts `s` at the first occurrence of `sep`: the text before it, and the
/// text after it when there is one.
fn split_first(s: &str, sep: &Vec<char>) -> (r: (String, Option<String>))
    ensures
        r.0@ == before_sep(s@, sep@),
        r.1 is Some <==> contains_seq(s@, sep@),
        r.1 is Some ==> r.1->0@ == after_sep(s@, sep@),
{
    let chars = chars_of(s);
    proof {
        lemma_find_first(s@, sep@);
    }
    match find_in(&chars, sep, 0) {
        Some(i) => {
            assert(occurs_at(s@, sep@, i as int));
            assert(i + sep.len() <= chars.len());
            let before = substring(s, 0, i);
            let after = substring(s, i + sep.len(), chars.len());
            assert(before@ =~= s@.take(i as int));
            assert(after@ =~= s@.skip(i + sep@.len()));
            (before, Some(after))
        },
        None => {
            let all = substring(s, 0, chars.len());
            assert(all@ =~= s@);
            (all, None)
        },
    }
}

/// Whether a line of the history or watch-later file can be read.
pub fn is_entry_line(line: &str) -> (r: bool)
    ensures
        r == entry_parsable(line@),
{
    let ids = id_sep_chars();
    let cs = chan_sep_chars();
    let (_, after) = split_first(line, &ids);
    match after {
        None => false,
        Some(rest) => {
            let (mid, _) = split_first(rest.as_str(), &ids);
            let (_, tail) = split_first(mid.as_str(), &cs);
            tail.is_some()
        },
    }
}

/// Reads a line of the history or watch-later file as its title, id and
/// channel.
pub fn parse_entry(line: &str) -> (r: (String, String, String))
    requires
        entry_parsable(line@),
    ensures
        (r.0@, r.1@, r.2@) == entry_fields(line@),
{
    let ids = id_sep_chars();
    let cs = chan_sep_chars();
    let (title, after) = split_first(line, &ids);
    let rest = after.unwrap();
    let (mid, _) = split_first(rest.as_str(), &ids);
    let (id, tail) = split_first(mid.as_str(), &cs);
    let tail = tail.unwrap();
    let (chan, _) = split_first(tail.as_str(), &cs);
    (title, id, chan)
}


/// The video that one line of the file stands for.
fn video_of_line(line: &Option<String>) -> (v: Video)
    requires
        line is Some ==> entry_parsable(line->0@),
    ensures
        v@ == entry_video(match line { Some(l) => Some(l@), None => None }),
{
    match line {
        Some(l) => {
            let (title, id, chan) = parse_entry(l.as_str());
            Video::new_light(title, id, chan)
        },
        None => Video::new_light(String::from_str("error"), String::from_str("error"), String::from_str("error")),
    }
}

/// Reads the lines of a history or watch-later file (`None` for a line that
/// could not be read) into its videos, newest first, and their titles.
fn load_list(lines: &Vec<Option<String>>) -> (r: (Vec<Video>, Vec<String>))
    requires
        lines_parsable(lines@),
    ensures
        loaded_list(lines@, r.0@, r.1@),
{
    let mut vids: Vec<Video> = Vec::new();
    let mut titles: Vec<String> = Vec::new();
    let n = lines.len();
    let mut k: usize = n;
    while k > 0
        invariant
            k <= n == lines@.len(),
            lines_parsable(lines@),
            vids@.len() == n - k,
            titles@.len() == n - k,
            forall|i: int| 0 <= i < n - k ==> {
                let line = lines@[n - 1 - i];
                #[trigger] vids@[i]@ == entry_video(match line { Some(l) => Some(l@), None => None })
            },
            forall|i: int| 0 <= i < n - k ==> #[trigger] titles@[i]@ == vids@[i].title@,
        decreases k,
    {
        k = k - 1;
        assert(lines@[k as int] is Some ==> entry_parsable(lines@[k as int]->0@));
        let v = video_of_line(&lines[k]);
        titles.push(v.title.clone());
        vids.push(v);
    }
    (vids, titles)
}

/// The history: its videos, newest first, and their titles.
pub fn load_history(lines: &Vec<Option<String>>) -> (r: (Vec<Video>, Vec<String>))
    requires
        lines_parsable(lines@),
    ensures
        loaded_list(lines@, r.0@, r.1@),
{
    load_list(lines)
}

/// The watch-later list: its videos, newest first, and their titles.
pub fn load_watch(lines: &Vec<Option<String>>) -> (r: (Vec<Video>, Vec<String>))
    requires
        lines_parsable(lines@),
    ensures
        loaded_list(lines@, r.0@, r.1@),
{
    load_list(lines)
}


/// A field can be written before `sep` and read back whole: no occurrence
/// of `sep` starts inside the field.
pub open spec fn clean_before(field: Seq<char>, sep: Seq<char>) -> bool {
    !contains_seq((field + sep).drop_last(), sep)
}

/// The fields of a video can be written as an entry and read back
/// unchanged: the title holds no id separator that starts inside it, the id
/// holds no channel separator that starts inside it, and nothing after the
/// title holds an id separator, nor the channel a channel separator.
pub open spec fn entry_fields_clean(title: Seq<char>, id: Seq<char>, chan: Seq<char>) -> bool {
    &&& clean_before(title, id_sep())
    &&& !contains_seq(id + chan_sep() + chan, id_sep())
    &&& clean_before(id, chan_sep())
    &&& !contains_seq(chan, chan_sep())
}

/// When no occurrence of `sep` starts inside `a`, the first occurrence of
/// `sep` in `a + sep + r` is the one right after `a`.
proof fn lemma_first_after(a: Seq<char>, sep: Seq<char>, r: Seq<char>)
    requires
        sep.len() > 0,
        clean_before(a, sep),
    ensures
        find_first(a + sep + r, sep) == a.len(),
        before_sep(a + sep + r, sep) == a,
        after_sep(a + sep + r, sep) == r,
{
    let s = a + sep + r;
    let d = (a + sep).drop_last();
    assert(s.subrange(a.len() as int, (a.len() + sep.len()) as int) =~= sep);
    assert(occurs_at(s, sep, a.len() as int));
    lemma_find_first(s, sep);
    let f = find_first(s, sep);
    if f < a.len() {
        assert(s.subrange(f, f + sep.len()) =~= d.subrange(f, f + sep.len()));
        assert(occurs_at(d, sep, f));
    }
    assert(s.take(a.len() as int) =~= a);
    assert(s.skip((a.len() + sep.len()) as int) =~= r);
}

/// When `sep` does not occur in `s`, cutting at it leaves `s` whole.
proof fn lemma_no_sep(s: Seq<char>, sep: Seq<char>)
    requires
        !contains_seq(s, sep),
    ensures
        before_sep(s, sep) == s,
{
    lemma_find_first(s, sep);
}

/// Reading an entry gives back what was written: for fields that are
/// clean, the line written for them can be read, and reads as them.
pub proof fn lemma_entry_roundtrip(title: Seq<char>, id: Seq<char>, chan: Seq<char>)
    requires
        entry_fields_clean(title, id, chan),
    ensures
        entry_parsable(entry_text(title, id, chan)),
        entry_fields(entry_text(title, id, chan)) == (title, id, chan),
{
    let line = entry_text(title, id, chan);
    let rest = id + chan_sep() + chan;
    assert(line =~= title + id_sep() + rest);
    lemma_first_after(title, id_sep(), rest);
    lemma_find_first(line, id_sep());
    lemma_no_sep(rest, id_sep());
    assert(second_piece(line, id_sep()) == rest);
    lemma_first_after(id, chan_sep(), chan);
    lemma_find_first(rest, chan_sep());
    lemma_no_sep(chan, chan_sep());
}

/// What the history file gives back of what was written to it: when each
/// line of the file was written for a video with clean fields, loading the
/// file yields those videos, newest (last written) first, and their titles.
pub proof fn lemma_history_roundtrip(
    written: Seq<VideoView>,
    lines: Seq<Option<String>>,
    vids: Seq<Video>,
    titles: Seq<String>,
)
    requires
        lines.len() == written.len(),
        forall|i: int| 0 <= i < lines.len() ==> (#[trigger] lines[i]) is Some
            && lines[i]->0@ == entry_text(written[i].title, written[i].id, written[i].channel)
            && entry_fields_clean(written[i].title, written[i].id, written[i].channel),
        loaded_list(lines, vids, titles),
    ensures
        vids.len() == written.len(),
        forall|i: int| 0 <= i < vids.len() ==> {
            let w = written[written.len() - 1 - i];
            #[trigger] vids[i]@ == light_view(w.title, w.id, w.channel)
        },
        forall|i: int| 0 <= i < titles.len() ==> #[trigger] titles[i]@ == written[written.len() - 1 - i].title,
{
    assert forall|i: int| 0 <= i < vids.len() implies {
        let w = written[written.len() - 1 - i];
        #[trigger] vids[i]@ == light_view(w.title, w.id, w.channel)
    } by {
        let k = lines.len() - 1 - i;
        let w = written[k];
        assert(lines[k] is Some);
        lemma_entry_roundtrip(w.title, w.id, w.channel);
    }
    assert forall|i: int| 0 <= i < titles.len() implies #[trigger] titles[i]@ == written[written.len() - 1 - i].title by {
        assert(vids[i]@ == light_view(written[written.len() - 1 - i].title, written[written.len() - 1 - i].id, written[written.len() - 1 - i].channel));
    }
}


/// The text of a file that lists the given videos, one entry per line.
pub open spec fn list_text(s: Seq<VideoView>) -> Seq<char>
    decreases s.len(),
{
    if s.len() == 0 {
        Seq::empty()
    } else {
        list_text(s.drop_last()) + entry_text(s.last().title, s.last().id, s.last().channel) + seq!['\n']
    }
}

/// The id of a video's fields.
pub open spec fn view_id(v: VideoView) -> Seq<char> {
    v.id
}

/// The videos that the lines of a file stand for, newest first.
pub open spec fn history_views(lines: Seq<Option<String>>) -> Seq<VideoView> {
    Seq::new(lines.len(), |i: int| {
        let line = lines[lines.len() - 1 - i];
        entry_video(match line { Some(l) => Some(l@), None => None })
    })
}

/// The text of a file that lists the given videos in order.
pub fn history_file_text(vids: &Vec<Video>) -> (r: String)
    ensures
        r@ == list_text(vids@.map_values(|v: Video| v@)),
{
    let ghost views = vids@.map_values(|v: Video| v@);
    let mut r = String::new();
    let mut k: usize = 0;
    while k < vids.len()
        invariant
            k <= vids.len(),
            views == vids@.map_values(|v: Video| v@),
            r@ == list_text(views.take(k as int)),
        decreases vids.len() - k,
    {
        proof {
            reveal_strlit("\n");
            assert(views.take(k + 1).drop_last() =~= views.take(k as int));
            assert(views.take(k + 1).last() == vids@[k as int]@);
        }
        let line = entry_line(vids[k].title.as_str(), vids[k].id.as_str(), vids[k].channel.as_str());
        r.append(line.as_str());
        r.append("\n");
        assert("\n"@ =~= seq!['\n']);
        k = k + 1;
    }
    assert(views.take(vids.len() as int) =~= views);
    r
}

/// The history with repeated videos dropped: the new text of the history
/// file, which lists, newest first, the newest entry of each id.
pub fn prune_history(lines: &Vec<Option<String>>) -> (r: String)
    requires
        lines_parsable(lines@),
    ensures
        r@ == list_text(dedup_by(history_views(lines@), |v: VideoView| view_id(v))),
{
    let (vids, _) = load_list(lines);
    let kept = unique_by_id(&vids);
    let r = history_file_text(&kept);
    proof {
        let f = |v: Video| v@;
        assert(vids@.map_values(f) =~= history_views(lines@));
        lemma_dedup_map(vids@, f, |v: Video| video_id(v), |v: VideoView| view_id(v));
    }
    r
}

} // verus!
