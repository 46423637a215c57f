//! Channels the user subscribes to, and the files that keep their videos.
use vstd::prelude::*;
use crate::video::Video;
use crate::unique::{dedup_by, has_key, text_key, unique_strings, lemma_dedup_by, lemma_dedup_prefix, lemma_dedup_distinct_keeps};

verus! {

/// A channel, with the id of the playlist of its uploads.
#[derive(Debug)]
pub struct YTChannel {
    pub name: String,
    pub id: String,
    pub description: String,
    pub thumbnail_url: String,
    pub item_count: String,
    pub upload_playlist: String,
    pub page_token: (String, String),
}

impl YTChannel {
    /// A channel, given what the Data API answered when asked for the id of
    /// its uploads playlist (`None` when the answer was an error); an error
    /// leaves the playlist empty.
    pub fn new(
        name: String,
        id: String,
        description: String,
        thumbnail_url: String,
        item_count: String,
        uploads: Option<String>,
    ) -> (c: Self)
        ensures
            c.name@ == name@,
            c.id@ == id@,
            c.description@ == description@,
            c.thumbnail_url@ == thumbnail_url@,
            c.item_count@ == item_count@,
            c.upload_playlist@ == match uploads {
                Some(u) => u@,
                None => Seq::<char>::empty(),
            },
            c.page_token.0@ == Seq::<char>::empty(),
            c.page_token.1@ == Seq::<char>::empty(),
    {
        Self {
            upload_playlist: match uploads {
                Some(u) => u,
                None => String::new(),
            },
            name,
            id,
            description,
            thumbnail_url,
            item_count,
            page_token: (String::new(), String::new()),
        }
    }

    /// The folder that holds the channel's files under the cache path.
    pub fn folder_path(&self, cache: &str) -> (r: String)
        ensures
            r@ == cache@ + "/"@ + self.id@,
    {
        String::from_str(cache).concat("/").concat(self.id.as_str())
    }

    /// The file that holds the channel itself.
    pub fn channel_file(&self, cache: &str) -> (r: String)
        ensures
            r@ == cache@ + "/"@ + self.id@ + "/"@ + self.id@ + ".json"@,
    {
        self.folder_path(cache).concat("/").concat(self.id.as_str()).concat(".json")
    }

    /// The file that holds the channel's videos.
    pub fn videos_file(&self, cache: &str) -> (r: String)
        ensures
            r@ == cache@ + "/"@ + self.id@ + "/"@ + self.id@ + "_vids.json"@,
    {
        self.folder_path(cache).concat("/").concat(self.id.as_str()).concat("_vids.json")
    }

    /// The videos to store after fetching the channel's latest uploads
    /// `fresh`, given the videos stored so far `stored` (newest first): the
    /// fresh videos that come before the newest stored one, followed by the
    /// stored ones; `None` when there are no such fresh videos, and nothing
    /// is to be stored.
    pub fn update_videos(&self, fresh: &Vec<Video>, stored: &Vec<Video>) -> (r: Option<Vec<Video>>)
        requires
            stored@.len() > 0,
        ensures
            match r {
                Some(all) => {
                    let n = new_count(fresh@, stored@[0].id@);
                    &&& n > 0
                    &&& all@ == fresh@.take(n) + stored@
                },
                None => new_count(fresh@, stored@[0].id@) == 0,
            },
    {
        let n = count_new(fresh, &stored[0].id);
        proof {
            lemma_new_count(fresh@, stored@[0].id@);
        }
        if n == 0 {
            return None;
        }
        let mut all: Vec<Video> = Vec::new();
        let mut i: usize = 0;
        while i < n
            invariant
                i <= n <= fresh@.len(),
                all@ == fresh@.take(i as int),
            decreases n - i,
        {
            all.push(fresh[i].clone());
            assert(fresh@.take(i + 1) =~= fresh@.take(i as int).push(fresh@[i as int]));
            i = i + 1;
        }
        let mut j: usize = 0;
        let ghost head = all@;
        while j < stored.len()
            invariant
                j <= stored@.len(),
                all@ == head + stored@.take(j as int),
            decreases stored.len() - j,
        {
            all.push(stored[j].clone());
            assert(stored@.take(j + 1) =~= stored@.take(j as int).push(stored@[j as int]));
            j = j + 1;
        }
        assert(stored@.take(stored.len() as int) =~= stored@);
        Some(all)
    }
}

/// How many videos at the front of `fresh` come before the first one whose
/// id is `last_id`: all of them when none has it.
pub open spec fn new_count(fresh: Seq<Video>, last_id: Seq<char>) -> int
    decreases fresh.len(),
{
    if fresh.len() == 0 {
        0
    } else if fresh[0].id@ == last_id {
        0
    } else {
        1 + new_count(fresh.drop_first(), last_id)
    }
}

/// The count of new videos is the length of the longest prefix of `fresh`
/// in which no video has the id `last_id`.
pub proof fn lemma_new_count(fresh: Seq<Video>, last_id: Seq<char>)
    ensures
        0 <= new_count(fresh, last_id) <= fresh.len(),
        forall|i: int| 0 <= i < new_count(fresh, last_id) ==> (#[trigger] fresh[i]).id@ != last_id,
        new_count(fresh, last_id) < fresh.len() ==> fresh[new_count(fresh, last_id)].id@ == last_id,
    decreases fresh.len(),
{
    if fresh.len() > 0 && fresh[0].id@ != last_id {
        lemma_new_count(fresh.drop_first(), last_id);
        assert forall|i: int| 0 <= i < new_count(fresh, last_id) implies (#[trigger] fresh[i]).id@ != last_id by {
            if i > 0 {
                assert(fresh[i] == fresh.drop_first()[i - 1]);
            }
        }
    }
}

fn count_new(fresh: &Vec<Video>, last_id: &String) -> (n: usize)
    ensures
        n as int == new_count(fresh@, last_id@),
{
    let mut i: usize = 0;
    assert(fresh@.skip(0) =~= fresh@);
    while i < fresh.len()
        invariant
            i <= fresh.len(),
            new_count(fresh@, last_id@) == i + new_count(fresh@.skip(i as int), last_id@),
        decreases fresh.len() - i,
    {
        assert(fresh@.skip(i as int)[0] == fresh@[i as int]);
        if fresh[i].id == *last_id {
            return i;
        }
        assert(fresh@.skip(i as int).drop_first() =~= fresh@.skip(i + 1));
        i = i + 1;
    }
    i
}

/// Updating twice with the same fetched uploads stores nothing the second
/// time: once the new videos are stored in front, the newest stored video
/// is the first fetched one.
pub proof fn lemma_update_settles(fresh: Seq<Video>, stored: Seq<Video>)
    requires
        stored.len() > 0,
        new_count(fresh, stored[0].id@) > 0,
    ensures
        new_count(fresh, (fresh.take(new_count(fresh, stored[0].id@)) + stored)[0].id@) == 0,
{
    lemma_new_count(fresh, stored[0].id@);
    let all = fresh.take(new_count(fresh, stored[0].id@)) + stored;
    assert(all[0] == fresh[0]);
}

/// The entry of the list of channels that names a channel's files.
pub fn channel_list_entry(perma: &str, id: &str) -> (r: String)
    ensures
        r@ == perma@ + "/"@ + id@ + "/"@ + id@,
{
    String::from_str(perma).concat("/").concat(id).concat("/").concat(id)
}

/// The file that an entry of the list of channels names.
pub fn channel_entry_file(entry: &str) -> (r: String)
    ensures
        r@ == entry@ + ".json"@,
{
    String::from_str(entry).concat(".json")
}

/// The new list of channels after an update: the channels that got new
/// videos first, then all the channels, each named once.
pub fn updated_channel_list(updated: &Vec<String>, all: &Vec<String>) -> (r: Vec<String>)
    ensures
        r@ == dedup_by(updated@ + all@, text_key()),
{
    let mut joined: Vec<String> = Vec::new();
    let mut i: usize = 0;
    while i < updated.len()
        invariant
            i <= updated@.len(),
            joined@ == updated@.take(i as int),
        decreases updated.len() - i,
    {
        joined.push(updated[i].clone());
        assert(updated@.take(i + 1) =~= updated@.take(i as int).push(updated@[i as int]));
        i = i + 1;
    }
    let mut j: usize = 0;
    while j < all.len()
        invariant
            j <= all@.len(),
            joined@ == updated@.take(updated@.len() as int) + all@.take(j as int),
        decreases all.len() - j,
    {
        joined.push(all[j].clone());
        assert(all@.take(j + 1) =~= all@.take(j as int).push(all@[j as int]));
        j = j + 1;
    }
    assert(joined@ =~= updated@ + all@);
    unique_strings(&joined)
}


/// The list of channels after an update names every channel of the old
/// list, and only those, each once, when the channels that got new videos
/// are among them; and those channels, named once each, come first.
pub proof fn lemma_updated_channel_list(updated: Seq<String>, all: Seq<String>)
    requires
        forall|i: int| 0 <= i < updated.len() ==> has_key(all, text_key(), (#[trigger] updated[i])@),
    ensures
        forall|t: Seq<char>| has_key(dedup_by(updated + all, text_key()), text_key(), t)
            <==> has_key(all, text_key(), t),
        forall|a: int, b: int| 0 <= a < b < dedup_by(updated + all, text_key()).len()
            ==> (#[trigger] dedup_by(updated + all, text_key())[a])@
                != (#[trigger] dedup_by(updated + all, text_key())[b])@,
        (forall|a: int, b: int| 0 <= a < b < updated.len() ==> (#[trigger] updated[a])@ != (#[trigger] updated[b])@)
            ==> forall|i: int| 0 <= i < updated.len() ==> #[trigger] dedup_by(updated + all, text_key())[i] == updated[i],
{
    let key = text_key();
    let joined = updated + all;
    lemma_dedup_by(joined, key);
    assert forall|t: Seq<char>| has_key(joined, key, t) <==> has_key(all, key, t) by {
        if has_key(joined, key, t) {
            let j = choose|j: int| 0 <= j < joined.len() && key(#[trigger] joined[j]) == t;
            if j < updated.len() {
                assert(joined[j] == updated[j]);
                assert(has_key(all, key, updated[j]@));
            } else {
                assert(joined[j] == all[j - updated.len()]);
            }
        }
        if has_key(all, key, t) {
            let j = choose|j: int| 0 <= j < all.len() && key(#[trigger] all[j]) == t;
            assert(joined[updated.len() + j] == all[j]);
        }
    }
    if forall|a: int, b: int| 0 <= a < b < updated.len() ==> (#[trigger] updated[a])@ != (#[trigger] updated[b])@ {
        assert(joined.take(updated.len() as int) =~= updated);
        lemma_dedup_distinct_keeps(updated, key);
        lemma_dedup_prefix(joined, key, updated.len() as int);
    }
}

} // verus!
