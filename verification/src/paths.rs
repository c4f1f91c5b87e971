//! Slash-separated paths, held as text.
use crate::text;
use vstd::prelude::*;
use vstd::string::*;

verus! {

/// A path that starts at the root.
pub open spec fn absolute(path: Seq<char>) -> bool {
    path.len() > 0 && path[0] == '/'
}

/// `path` below `base`; an absolute path replaces it.
pub open spec fn joined(base: Seq<char>, path: Seq<char>) -> Seq<char> {
    if absolute(path) {
        path
    } else if base.len() > 0 && base.last() != '/' {
        base + "/"@ + path
    } else {
        base + path
    }
}

/// A path cut at its slashes as far as it was read: the components that were closed, the piece
/// being read, and whether no slash came yet.
pub ghost struct Cut {
    pub closed: Seq<Seq<char>>,
    pub piece: Seq<char>,
    pub first: bool,
}

/// The components once the piece is closed too: empty pieces and dots behind the first place are
/// left out.
pub open spec fn close(cut: Cut) -> Seq<Seq<char>> {
    if cut.piece.len() == 0 || (cut.piece == "."@ && !cut.first) {
        cut.closed
    } else {
        cut.closed.push(cut.piece)
    }
}

pub open spec fn cut(path: Seq<char>) -> Cut
    decreases path.len(),
{
    if path.len() == 0 {
        Cut { closed: Seq::empty(), piece: Seq::empty(), first: true }
    } else {
        let before = cut(path.drop_last());
        if path.last() == '/' {
            Cut { closed: close(before), piece: Seq::empty(), first: false }
        } else {
            Cut { piece: before.piece.push(path.last()), ..before }
        }
    }
}

/// The components of a path, with the root as `/`.
pub open spec fn components(path: Seq<char>) -> Seq<Seq<char>> {
    if absolute(path) {
        seq!["/"@] + close(cut(path))
    } else {
        close(cut(path))
    }
}

/// Whether `path` lies at or below `base`, component by component.
pub open spec fn below(path: Seq<char>, base: Seq<char>) -> bool {
    let p = components(path);
    let b = components(base);
    b.len() <= p.len() && p.take(b.len() as int) == b
}

/// Whether the last component is a name.
pub open spec fn named(path: Seq<char>) -> bool {
    let c = components(path);
    c.len() > 0 && c.last() != "/"@ && c.last() != "."@ && c.last() != ".."@
}

fn is_absolute(path: &str) -> (r: bool)
    ensures
        r == absolute(path@),
{
    let chars = text::chars_of(path);
    chars.len() > 0 && chars[0] == '/'
}

/// `path` below `base`; an absolute path replaces it.
pub fn join(base: &str, path: &str) -> (r: String)
    ensures
        r@ == joined(base@, path@),
{
    if is_absolute(path) {
        return path.to_owned();
    }
    let chars = text::chars_of(base);
    if chars.len() > 0 && chars[chars.len() - 1] != '/' {
        text::enclosed(base, "/", path)
    } else {
        text::concat(base, path)
    }
}

fn close_piece(closed: &mut Vec<String>, piece: String, first: bool)
    ensures
        text::views(final(closed)@) == close(
            Cut { closed: text::views(old(closed)@), piece: piece@, first },
        ),
{
    let ghost before = closed@;
    let letters = text::chars_of(piece.as_str());
    if letters.len() == 0 || (text::same(piece.as_str(), ".") && !first) {
        return;
    }
    closed.push(piece);
    assert(text::views(closed@) =~= text::views(before).push(piece@));
}

fn components_of(path: &str) -> (r: Vec<String>)
    ensures
        text::views(r@) == components(path@),
{
    let chars = text::chars_of(path);
    let mut closed: Vec<String> = Vec::new();
    let mut piece = String::new();
    let mut first = true;
    assert(text::views(closed@) =~= Seq::empty());
    for i in 0..chars.len()
        invariant
            chars@ == path@,
            cut(path@.take(i as int)) == (Cut {
                closed: text::views(closed@),
                piece: piece@,
                first,
            }),
    {
        let ghost longer = path@.take(i + 1);
        assert(longer.drop_last() =~= path@.take(i as int));
        if chars[i] == '/' {
            close_piece(&mut closed, piece, first);
            piece = String::new();
            first = false;
        } else {
            piece.push(chars[i]);
        }
    }
    assert(path@.take(chars@.len() as int) =~= path@);
    close_piece(&mut closed, piece, first);
    if is_absolute(path) {
        let mut out: Vec<String> = Vec::new();
        out.push("/".to_owned());
        let ghost rest = closed@;
        let mut closed = closed;
        out.append(&mut closed);
        assert(text::views(out@) =~= seq!["/"@] + text::views(rest));
        return out;
    }
    closed
}

/// Whether `path` lies at or below `base`, component by component.
pub fn starts_with(path: &str, base: &str) -> (r: bool)
    ensures
        r == below(path@, base@),
{
    let p = components_of(path);
    let b = components_of(base);
    assert(text::views(p@).len() == p@.len() && text::views(b@).len() == b@.len());
    if b.len() > p.len() {
        return false;
    }
    let ghost ps = text::views(p@);
    let ghost bs = text::views(b@);
    for i in 0..b.len()
        invariant
            b@.len() <= p@.len(),
            ps == text::views(p@),
            bs == text::views(b@),
            ps == components(path@),
            bs == components(base@),
            forall|j: int| 0 <= j < i ==> ps[j] == bs[j],
    {
        if !text::same(p[i].as_str(), b[i].as_str()) {
            assert(ps[i as int] != bs[i as int]);
            assert(ps.take(bs.len() as int)[i as int] == ps[i as int]);
            return false;
        }
    }
    assert(ps.take(bs.len() as int) =~= bs);
    true
}

/// Whether the path ends in a name.
pub fn has_file_name(path: &str) -> (r: bool)
    ensures
        r == named(path@),
{
    let c = components_of(path);
    assert(text::views(c@).len() == c@.len());
    if c.len() == 0 {
        return false;
    }
    let last = c[c.len() - 1].as_str();
    !text::same(last, "/") && !text::same(last, ".") && !text::same(last, "..")
}

/// Every path lies below itself.
pub proof fn paths_hold_themselves(path: Seq<char>)
    ensures
        below(path, path),
{
    let c = components(path);
    assert(c.take(c.len() as int) =~= c);
}

/// What lies below a path that lies below a third lies below the third.
pub proof fn containment_is_transitive(a: Seq<char>, b: Seq<char>, c: Seq<char>)
    requires
        below(a, b),
        below(b, c),
    ensures
        below(a, c),
{
    let x = components(a);
    let y = components(b);
    let z = components(c);
    assert(x.take(z.len() as int) =~= x.take(y.len() as int).take(z.len() as int));
}

/// A path below another is joined with one slash between them; one that starts at the root stands
/// alone.
pub proof fn paths_are_joined(base: Seq<char>, path: Seq<char>)
    ensures
        path.len() > 0 && path[0] == '/' ==> joined(base, path) == path,
        !(path.len() > 0 && path[0] == '/') && base.len() > 0 && base.last() != '/' ==> joined(
            base,
            path,
        ) == base.push('/') + path,
        !(path.len() > 0 && path[0] == '/') && base.len() > 0 && base.last() == '/' ==> joined(
            base,
            path,
        ) == base + path,
        !(path.len() > 0 && path[0] == '/') && base.len() == 0 ==> joined(base, path) == path,
{
    reveal_strlit("/");
    assert(base + "/"@ =~= base.push('/'));
    if base.len() == 0 {
        assert(base + path =~= path);
    }
}

proof fn pieces_grow(path: Seq<char>, piece: Seq<char>)
    requires
        forall|i: int| 0 <= i < piece.len() ==> #[trigger] piece[i] != '/',
    ensures
        cut(path + piece) == (Cut { piece: cut(path).piece + piece, ..cut(path) }),
    decreases piece.len(),
{
    if piece.len() == 0 {
        assert(path + piece =~= path);
        assert(cut(path).piece + piece =~= cut(path).piece);
    } else {
        let before = piece.drop_last();
        assert forall|i: int| 0 <= i < before.len() implies #[trigger] before[i] != '/' by {
            assert(before[i] == piece[i]);
        }
        pieces_grow(path, before);
        assert((path + piece).drop_last() =~= path + before);
        assert(piece[piece.len() - 1] != '/');
        assert((path + piece).last() == piece.last());
        assert((cut(path).piece + before).push(piece.last()) =~= cut(path).piece + piece);
    }
}

/// A name behind a slash is one more component, unless it is empty or a single dot, which are
/// none.
pub proof fn names_are_components(path: Seq<char>, name: Seq<char>)
    requires
        path.len() > 0,
        forall|i: int| 0 <= i < name.len() ==> #[trigger] name[i] != '/',
    ensures
        ({
            let longer = path.push('/') + name;
            components(longer) == if name.len() == 0 || name == seq!['.'] {
                components(path)
            } else {
                components(path).push(name)
            }
        }),
{
    reveal_strlit(".");
    let opened = path.push('/');
    let longer = opened + name;
    assert(opened.drop_last() =~= path);
    assert(opened.last() == '/');
    pieces_grow(opened, name);
    assert(cut(opened).piece + name =~= name);
    assert(longer[0] == path[0]);
    assert("."@ =~= seq!['.']);
    if absolute(path) {
        assert(components(longer) =~= if name.len() == 0 || name == seq!['.'] {
            components(path)
        } else {
            components(path).push(name)
        });
    }
}

/// A path is below every path it goes on from.
pub proof fn longer_paths_are_below(path: Seq<char>, name: Seq<char>)
    requires
        path.len() > 0,
        forall|i: int| 0 <= i < name.len() ==> #[trigger] name[i] != '/',
    ensures
        below(path.push('/') + name, path),
{
    names_are_components(path, name);
    let p = components(path.push('/') + name);
    let b = components(path);
    assert(p.take(b.len() as int) =~= b);
}

/// A path ends in a file name exactly when its last component is an ordinary one.
pub proof fn file_names_are_ordinary(path: Seq<char>, name: Seq<char>)
    requires
        path.len() > 0,
        name.len() > 0,
        name != seq!['.'],
        forall|i: int| 0 <= i < name.len() ==> #[trigger] name[i] != '/',
    ensures
        named(path.push('/') + name) <==> name != seq!['.', '.'],
{
    reveal_strlit(".");
    reveal_strlit("..");
    reveal_strlit("/");
    names_are_components(path, name);
    assert("."@ =~= seq!['.']);
    assert(".."@ =~= seq!['.', '.']);
    assert("/"@[0] == '/');
    assert(name[0] != '/');
}

} // verus!
