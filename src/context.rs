use vstd::prelude::*;
use vstd::string::StringExecFns;

verus! {

/// One file given as context: the path as shown to the service and the
/// file's whole text.
pub struct FileEntry {
    pub path: String,
    pub content: String,
}

/// The block that one file contributes: a header line naming the path, the
/// content as a fenced text block, and a blank line.
pub open spec fn entry_text(path: Seq<char>, content: Seq<char>) -> Seq<char> {
    "File: "@ + path + "\n```text\n"@ + content + "\n```\n\n"@
}

/// The context for a sequence of files: their blocks, in order.
pub open spec fn context_text(entries: Seq<FileEntry>) -> Seq<char>
    decreases entries.len(),
{
    if entries.len() == 0 {
        Seq::empty()
    } else {
        context_text(entries.drop_last()) + entry_text(
            entries.last().path@,
            entries.last().content@,
        )
    }
}

/// Renders the files' contents into one text to put before a request.
pub fn build_file_context(files: &Vec<FileEntry>) -> (r: String)
    ensures
        r@ == context_text(files@),
        files@.len() == 0 ==> r@.len() == 0,
{
    let mut ctx = String::new();
    let mut i: usize = 0;
    while i < files.len()
        invariant
            i <= files@.len(),
            ctx@ == context_text(files@.take(i as int)),
        decreases files@.len() - i,
    {
        let e = &files[i];
        ctx.append("File: ");
        ctx.append(e.path.as_str());
        ctx.append("\n```text\n");
        ctx.append(e.content.as_str());
        ctx.append("\n```\n\n");
        proof {
            let next = files@.take(i + 1);
            assert(next.drop_last() =~= files@.take(i as int));
            assert(ctx@ =~= context_text(next));
        }
        i = i + 1;
    }
    assert(files@.take(files@.len() as int) =~= files@);
    ctx
}

/// The context of the first files is a prefix of the context of all of them.
pub proof fn lemma_context_prefix(entries: Seq<FileEntry>, j: int)
    requires
        0 <= j <= entries.len(),
    ensures
        context_text(entries.take(j)).len() <= context_text(entries).len(),
        context_text(entries).subrange(0, context_text(entries.take(j)).len() as int)
            == context_text(entries.take(j)),
    decreases entries.len(),
{
    let whole = context_text(entries);
    let part = context_text(entries.take(j));
    if j < entries.len() {
        let rest = entries.drop_last();
        assert(rest.take(j) =~= entries.take(j));
        lemma_context_prefix(rest, j);
        assert(whole.subrange(0, part.len() as int) =~= context_text(rest).subrange(
            0,
            part.len() as int,
        ));
    } else {
        assert(entries.take(j) =~= entries);
        assert(whole.subrange(0, whole.len() as int) =~= whole);
    }
}

/// Every file's block stands in the context in input order: the block of
/// the i-th file follows the blocks of the files before it, and holds the
/// path's header followed by that file's exact content.
pub proof fn lemma_context_in_order(entries: Seq<FileEntry>, i: int)
    requires
        0 <= i < entries.len(),
    ensures
        ({
            let start = context_text(entries.take(i)).len() as int;
            let end = context_text(entries.take(i + 1)).len() as int;
            let pl = entries[i].path@.len() as int;
            let cl = entries[i].content@.len() as int;
            &&& start <= end <= context_text(entries).len()
            &&& context_text(entries).subrange(start, end) == entry_text(
                entries[i].path@,
                entries[i].content@,
            )
            &&& entry_text(entries[i].path@, entries[i].content@).subrange(
                6,
                6 + pl,
            ) == entries[i].path@
            &&& entry_text(entries[i].path@, entries[i].content@).subrange(
                15 + pl,
                15 + pl + cl,
            ) == entries[i].content@
        }),
{
    let pre = context_text(entries.take(i));
    let blk = entry_text(entries[i].path@, entries[i].content@);
    assert(entries.take(i + 1).drop_last() =~= entries.take(i));
    assert(context_text(entries.take(i + 1)) == pre + blk);
    lemma_context_prefix(entries, i + 1);
    let whole = context_text(entries);
    let upto = (pre.len() + blk.len()) as int;
    assert(whole.subrange(pre.len() as int, upto) =~= (pre + blk).subrange(
        pre.len() as int,
        upto,
    ));
    reveal_strlit("File: ");
    reveal_strlit("\n```text\n");
    let p = entries[i].path@;
    let c = entries[i].content@;
    let pl = p.len() as int;
    let cl = c.len() as int;
    assert(blk.subrange(6, 6 + pl) =~= p);
    assert(blk.subrange(15 + pl, 15 + pl + cl) =~= c);
}

} // verus!
