//! The text of the boot menu configuration.

use vstd::prelude::*;

verus! {

/// Least number of characters that a name takes up in a module line.
pub const NAME_WIDTH: usize = 25;

/// `n` blanks.
pub open spec fn blanks(n: nat) -> Seq<char> {
    Seq::new(n, |i: int| ' ')
}

/// A name followed by as many blanks as it takes to fill `NAME_WIDTH`
/// characters; a name that long or longer stands unchanged.
pub open spec fn padded(name: Seq<char>) -> Seq<char> {
    if name.len() >= NAME_WIDTH {
        name
    } else {
        name + blanks((NAME_WIDTH - name.len()) as nat)
    }
}

/// Pads `name` with blanks on the right to `NAME_WIDTH` characters.
pub fn pad_name(name: &str) -> (field: String)
    ensures
        field@ == padded(name@),
{
    let mut field = String::new();
    field.append(name);
    let len: usize = name.unicode_len();
    if len < NAME_WIDTH {
        let mut filled: usize = len;
        while filled < NAME_WIDTH
            invariant
                len <= filled <= NAME_WIDTH,
                len == name@.len(),
                field@ == name@ + blanks((filled - len) as nat),
            decreases NAME_WIDTH - filled,
        {
            proof {
                reveal_strlit(" ");
            }
            field.append(" ");
            filled = filled + 1;
        }
    }
    field
}

/// The line that loads the module `name`: the name stands twice, first
/// as a path below `/modules/`, then as the label, each in a padded field.
pub open spec fn module_line(name: Seq<char>) -> Seq<char> {
    "\tmodule2 /modules/"@ + padded(name) + "\t\t"@ + padded(name) + "\n"@
}

/// One module line for each name, in the order of the names.
pub open spec fn module_lines(names: Seq<Seq<char>>) -> Seq<Seq<char>> {
    names.map_values(|name: Seq<char>| module_line(name))
}

/// What stands before the module lines: the three comment lines, the two
/// settings, and the opening of the menu entry with its kernel line.
pub open spec fn preamble(program_path: Seq<char>, input_directory: Seq<char>) -> Seq<char> {
    "### This file has been autogenerated, do not manually modify it!\n"@
        + "### Generated by program: \""@ + program_path + "\"\n"@
        + "### Input directory: \""@ + input_directory + "\"\n\n"@
        + "set timeout=0\n"@
        + "set default=0\n\n"@
        + "menuentry \"Theseus OS\" {\n"@
        + "\tmultiboot2 /boot/kernel.bin \n"@
}

/// What stands after the module lines: a blank line, the boot directive
/// and the brace that closes the menu entry.
pub open spec fn closing() -> Seq<char> {
    "\n\tboot\n}\n"@
}

/// The whole configuration for the modules `names`.
pub open spec fn document(
    program_path: Seq<char>,
    input_directory: Seq<char>,
    names: Seq<Seq<char>>,
) -> Seq<char> {
    preamble(program_path, input_directory) + module_lines(names).flatten() + closing()
}

/// Writes the line that loads the module `name`.
pub fn module_entry(name: &str) -> (line: String)
    ensures
        line@ == module_line(name@),
{
    let field = pad_name(name);
    let mut line = String::new();
    line.append("\tmodule2 /modules/");
    line.append(field.as_str());
    line.append("\t\t");
    line.append(field.as_str());
    line.append("\n");
    line
}

/// Writes the configuration that loads the modules `names`, in their
/// order, for the generating program at `program_path` and the directory
/// `input_directory` that the names were found in.
pub fn render_document(program_path: &str, input_directory: &str, names: &Vec<String>) -> (text:
    String)
    ensures
        text@ == document(program_path@, input_directory@, names.deep_view()),
{
    let mut text = String::new();
    text.append("### This file has been autogenerated, do not manually modify it!\n");
    text.append("### Generated by program: \"");
    text.append(program_path);
    text.append("\"\n");
    text.append("### Input directory: \"");
    text.append(input_directory);
    text.append("\"\n\n");
    text.append("set timeout=0\n");
    text.append("set default=0\n\n");
    text.append("menuentry \"Theseus OS\" {\n");
    text.append("\tmultiboot2 /boot/kernel.bin \n");
    let mut done: usize = 0;
    while done < names.len()
        invariant
            done <= names.len(),
            text@ == preamble(program_path@, input_directory@) + module_lines(
                names.deep_view().take(done as int),
            ).flatten(),
        decreases names.len() - done,
    {
        let line = module_entry(names[done].as_str());
        proof {
            let all = names.deep_view();
            let before = all.take(done as int);
            assert(all.take(done + 1) == before.push(names[done as int]@));
            assert(module_lines(before.push(names[done as int]@)) == module_lines(before).push(
                line@,
            ));
            module_lines(before).lemma_flatten_push(line@);
        }
        text.append(line.as_str());
        done = done + 1;
    }
    proof {
        assert(names.deep_view().take(done as int) == names.deep_view());
    }
    text.append("\n\tboot\n}\n");
    text
}

/// A padded field begins with the name, goes on with blanks only, and is
/// as long as the longer of the name and `NAME_WIDTH`.
pub proof fn lemma_padded_field(name: Seq<char>)
    ensures
        padded(name).len() == if name.len() >= NAME_WIDTH {
            name.len()
        } else {
            NAME_WIDTH as nat
        },
        padded(name).take(name.len() as int) == name,
        forall|i: int| name.len() <= i < padded(name).len() ==> padded(name)[i] == ' ',
{
}

/// Between what opens the menu entry and what closes it, the document
/// holds one line for each entry of the listing and nothing else: the
/// line of an entry stands at the entry's place, and it names the entry
/// twice, as a path below `/modules/` and as the label.
pub proof fn lemma_one_line_per_entry(
    program_path: Seq<char>,
    input_directory: Seq<char>,
    names: Seq<Seq<char>>,
)
    ensures
        document(program_path, input_directory, names) == preamble(program_path, input_directory)
            + module_lines(names).flatten() + closing(),
        module_lines(names).len() == names.len(),
        forall|i: int|
            0 <= i < names.len() ==> #[trigger] module_lines(names)[i] == "\tmodule2 /modules/"@
                + padded(names[i]) + "\t\t"@ + padded(names[i]) + "\n"@,
{
}

/// For an empty listing the document is what opens the menu entry,
/// followed at once by what closes it: no module line stands between the
/// kernel line and the boot directive.
pub proof fn lemma_empty_listing(program_path: Seq<char>, input_directory: Seq<char>)
    ensures
        module_lines(Seq::empty()).len() == 0,
        document(program_path, input_directory, Seq::empty()) == preamble(
            program_path,
            input_directory,
        ) + closing(),
{
    assert(module_lines(Seq::empty()) == Seq::<Seq<char>>::empty());
}

/// Two listings that hold the same names equally often, in whatever
/// order, give the same module lines equally often.
pub proof fn lemma_order_changes_no_line(first: Seq<Seq<char>>, second: Seq<Seq<char>>)
    requires
        first.to_multiset() == second.to_multiset(),
    ensures
        module_lines(first).to_multiset() == module_lines(second).to_multiset(),
    decreases first.len(),
{
    vstd::seq_lib::to_multiset_len(first);
    vstd::seq_lib::to_multiset_len(second);
    if first.len() == 0 {
        assert(module_lines(first) == module_lines(second));
    } else {
        let last = first.len() - 1;
        let name = first[last];
        vstd::seq_lib::to_multiset_contains(first, name);
        vstd::seq_lib::to_multiset_contains(second, name);
        let at = choose|at: int| 0 <= at < second.len() && second[at] == name;
        vstd::seq_lib::to_multiset_remove(first, last);
        vstd::seq_lib::to_multiset_remove(second, at);
        lemma_order_changes_no_line(first.remove(last), second.remove(at));

        let line = module_line(name);
        assert(module_lines(first.remove(last)) == module_lines(first).remove(last));
        assert(module_lines(second.remove(at)) == module_lines(second).remove(at));
        vstd::seq_lib::to_multiset_remove(module_lines(first), last);
        vstd::seq_lib::to_multiset_remove(module_lines(second), at);
        vstd::seq_lib::to_multiset_contains(module_lines(first), line);
        vstd::seq_lib::to_multiset_contains(module_lines(second), line);
        assert(module_lines(first)[last] == line);
        assert(module_lines(second)[at] == line);
        assert(module_lines(first).to_multiset() == module_lines(first).to_multiset().remove(
            line,
        ).insert(line));
        assert(module_lines(second).to_multiset() == module_lines(second).to_multiset().remove(
            line,
        ).insert(line));
    }
}

} // verus!
