//! Which entries of a directory are pictures.
//!
//! A file counts as a picture by its name alone: its extension, read without
//! regard to the case of ASCII letters, must be `jpg`, `jpeg`, `png` or `gif`.

use vstd::prelude::*;

verus! {

/// The picture formats that are read and written.
#[derive(Clone, Copy, Debug, PartialEq, Eq, Structural)]
pub enum ImageKind {
    Jpeg,
    Png,
    Gif,
}

/// The lower-case form of an ASCII capital; any other character unchanged.
pub open spec fn lower(c: char) -> char {
    if 0x41 <= c as u32 <= 0x5a {
        (c as u32 + 0x20) as char
    } else {
        c
    }
}

/// The position of the last dot of `name`, if it has one.
pub open spec fn last_dot(name: Seq<char>) -> Option<int>
    decreases name.len(),
{
    if name.len() == 0 {
        None
    } else if name.last() == '.' {
        Some(name.len() - 1)
    } else {
        last_dot(name.drop_last())
    }
}

/// The extension of a file name: what follows its last dot. A name without
/// a dot has none, and neither has a name whose only dot is its first
/// character.
pub open spec fn extension(name: Seq<char>) -> Option<Seq<char>> {
    match last_dot(name) {
        Some(dot) => if dot > 0 {
            Some(name.subrange(dot + 1, name.len() as int))
        } else {
            None
        },
        None => None,
    }
}

/// The format that an extension stands for.
pub open spec fn kind_of_extension(ext: Seq<char>) -> Option<ImageKind> {
    let low = ext.map_values(|c: char| lower(c));
    if low == seq!['j', 'p', 'g'] || low == seq!['j', 'p', 'e', 'g'] {
        Some(ImageKind::Jpeg)
    } else if low == seq!['p', 'n', 'g'] {
        Some(ImageKind::Png)
    } else if low == seq!['g', 'i', 'f'] {
        Some(ImageKind::Gif)
    } else {
        None
    }
}

/// The format that a file name announces, if it is one of a picture.
pub open spec fn kind_of_name(name: Seq<char>) -> Option<ImageKind> {
    match extension(name) {
        Some(ext) => kind_of_extension(ext),
        None => None,
    }
}

/// The file name is one of a picture.
pub open spec fn is_image_name(name: Seq<char>) -> bool {
    kind_of_name(name) is Some
}

/// The names of `names` that are names of pictures, in their order.
pub open spec fn image_names(names: Seq<Seq<char>>) -> Seq<Seq<char>> {
    names.filter(|name: Seq<char>| is_image_name(name))
}

/// The code of the lower-case form of the character at `i`.
fn lower_code_at(name: &str, i: usize) -> (code: u32)
    requires
        i < name@.len(),
    ensures
        code == lower(name@[i as int]) as u32,
{
    let code: u32 = name.get_char(i) as u32;
    if 0x41 <= code && code <= 0x5a {
        code + 0x20
    } else {
        code
    }
}

/// Finds the last dot of a file name.
fn find_last_dot(name: &str) -> (r: Option<usize>)
    ensures
        match r {
            Some(dot) => last_dot(name@) == Some(dot as int) && dot < name@.len(),
            None => last_dot(name@) is None,
        },
{
    let n: usize = name.unicode_len();
    let mut i: usize = n;
    assert(name@.subrange(0, n as int) =~= name@);
    while i > 0
        invariant
            n == name@.len(),
            i <= n,
            last_dot(name@) == last_dot(name@.subrange(0, i as int)),
        decreases i,
    {
        let ghost head = name@.subrange(0, i as int);
        assert(head.drop_last() =~= name@.subrange(0, i - 1));
        assert(head.last() == name@[i - 1]);
        if name.get_char(i - 1) == '.' {
            return Some(i - 1);
        }
        i = i - 1;
    }
    None
}

/// Reads the format that a file name announces.
///
/// The result is `Some` exactly for the names of pictures.
pub fn image_kind(name: &str) -> (kind: Option<ImageKind>)
    ensures
        kind == kind_of_name(name@),
{
    let n: usize = name.unicode_len();
    let dot: usize = match find_last_dot(name) {
        Some(dot) => dot,
        None => {
            return None;
        },
    };
    if dot == 0 {
        return None;
    }
    let ghost low = name@.subrange(dot + 1, n as int).map_values(|c: char| lower(c));
    let len: usize = n - dot - 1;
    proof {
        assert(low.len() == len);
        lemma_known_extensions();
    }
    if len == 3 {
        let a: u32 = lower_code_at(name, dot + 1);
        let b: u32 = lower_code_at(name, dot + 2);
        let c: u32 = lower_code_at(name, dot + 3);
        assert(low =~= seq![low[0], low[1], low[2]]);
        if a == 0x6a && b == 0x70 && c == 0x67 {
            Some(ImageKind::Jpeg)
        } else if a == 0x70 && b == 0x6e && c == 0x67 {
            Some(ImageKind::Png)
        } else if a == 0x67 && b == 0x69 && c == 0x66 {
            Some(ImageKind::Gif)
        } else {
            None
        }
    } else if len == 4 {
        let a: u32 = lower_code_at(name, dot + 1);
        let b: u32 = lower_code_at(name, dot + 2);
        let c: u32 = lower_code_at(name, dot + 3);
        let d: u32 = lower_code_at(name, dot + 4);
        assert(low =~= seq![low[0], low[1], low[2], low[3]]);
        if a == 0x6a && b == 0x70 && c == 0x65 && d == 0x67 {
            Some(ImageKind::Jpeg)
        } else {
            None
        }
    } else {
        None
    }
}

/// The four accepted extensions, character by character.
proof fn lemma_known_extensions()
    ensures
        forall|s: Seq<char>|
            s == seq!['j', 'p', 'g'] <==> s.len() == 3 && s[0] == 'j' && s[1] == 'p' && s[2]
                == 'g',
        forall|s: Seq<char>|
            s == seq!['p', 'n', 'g'] <==> s.len() == 3 && s[0] == 'p' && s[1] == 'n' && s[2]
                == 'g',
        forall|s: Seq<char>|
            s == seq!['g', 'i', 'f'] <==> s.len() == 3 && s[0] == 'g' && s[1] == 'i' && s[2]
                == 'f',
        forall|s: Seq<char>|
            s == seq!['j', 'p', 'e', 'g'] <==> s.len() == 4 && s[0] == 'j' && s[1] == 'p' && s[2]
                == 'e' && s[3] == 'g',
{
    assert forall|s: Seq<char>|
        s.len() == 3 && s[0] == 'j' && s[1] == 'p' && s[2] == 'g' implies s == seq![
        'j',
        'p',
        'g',
    ] by {
        assert(s =~= seq!['j', 'p', 'g']);
    }
    assert forall|s: Seq<char>|
        s.len() == 3 && s[0] == 'p' && s[1] == 'n' && s[2] == 'g' implies s == seq![
        'p',
        'n',
        'g',
    ] by {
        assert(s =~= seq!['p', 'n', 'g']);
    }
    assert forall|s: Seq<char>|
        s.len() == 3 && s[0] == 'g' && s[1] == 'i' && s[2] == 'f' implies s == seq![
        'g',
        'i',
        'f',
    ] by {
        assert(s =~= seq!['g', 'i', 'f']);
    }
    assert forall|s: Seq<char>|
        s.len() == 4 && s[0] == 'j' && s[1] == 'p' && s[2] == 'e' && s[3] == 'g' implies s
        == seq!['j', 'p', 'e', 'g'] by {
        assert(s =~= seq!['j', 'p', 'e', 'g']);
    }
}

/// One more entry is looked at: the pictures among the first `i + 1` names are
/// those among the first `i`, followed by the name at `i` if it is one of a
/// picture.
pub proof fn lemma_image_names_step(names: Seq<Seq<char>>, i: int)
    requires
        0 <= i < names.len(),
    ensures
        image_names(names.take(i + 1)) == if is_image_name(names[i]) {
            image_names(names.take(i)).push(names[i])
        } else {
            image_names(names.take(i))
        },
{
    reveal(Seq::filter);
    assert(names.take(i + 1).drop_last() =~= names.take(i));
    assert(names.take(i + 1).last() == names[i]);
}

/// No entry has been looked at: no picture has been found.
pub proof fn lemma_image_names_start(names: Seq<Seq<char>>)
    ensures
        image_names(names.take(0)) == Seq::<Seq<char>>::empty(),
{
    reveal(Seq::filter);
    assert(names.take(0) =~= Seq::<Seq<char>>::empty());
}

/// Keeps the names of pictures among the entries of a directory.
///
/// The result holds exactly the names that are names of pictures, each as
/// often as it was given and in the order in which they were given.
pub fn select_images(names: &Vec<String>) -> (selected: Vec<String>)
    ensures
        selected.deep_view() == image_names(names.deep_view()),
{
    let ghost all = names.deep_view();
    let mut selected: Vec<String> = Vec::new();
    let mut i: usize = 0;
    proof {
        lemma_image_names_start(all);
        assert(selected.deep_view() =~= Seq::<Seq<char>>::empty());
    }
    while i < names.len()
        invariant
            i <= names.len(),
            all == names.deep_view(),
            selected.deep_view() == image_names(all.take(i as int)),
        decreases names.len() - i,
    {
        let ghost before = selected.deep_view();
        proof {
            lemma_image_names_step(all, i as int);
        }
        if image_kind(names[i].as_str()).is_some() {
            selected.push(names[i].clone());
            assert(selected.deep_view() =~= before.push(names[i as int]@));
        }
        i = i + 1;
    }
    assert(all.take(names.len() as int) =~= all);
    selected
}

} // verus!
