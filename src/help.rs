//! Rendering of a plugin's help text, into any `String` sink.

use vstd::prelude::*;
use vstd::string::*;
use crate::protocol::{PluginHelp, PluginInfo};

verus! {

/// Width to which command names are padded in the "Commands:" block.
pub const COMMAND_COLUMN: usize = 20;

/// `s` followed by spaces up to `width` characters; `s` itself when it is
/// already that long.
pub open spec fn pad_right(s: Seq<char>, width: nat) -> Seq<char> {
    if s.len() >= width {
        s
    } else {
        s + Seq::new((width - s.len()) as nat, |_i: int| ' ')
    }
}

/// One line of the "Commands:" block.
pub open spec fn command_line(entry: (String, String)) -> Seq<char> {
    "  "@ + pad_right(entry.0@, COMMAND_COLUMN as nat) + " "@ + entry.1@ + "\n"@
}

/// The lines of the "Commands:" block, in the order of the entries.
pub open spec fn command_lines(entries: Seq<(String, String)>) -> Seq<char>
    decreases entries.len(),
{
    if entries.len() == 0 {
        Seq::empty()
    } else {
        command_lines(entries.drop_last()) + command_line(entries.last())
    }
}

/// The lines of the "Examples:" block, in order.
pub open spec fn example_lines(examples: Seq<String>) -> Seq<char>
    decreases examples.len(),
{
    if examples.len() == 0 {
        Seq::empty()
    } else {
        example_lines(examples.drop_last()) + "  "@ + examples.last()@ + "\n"@
    }
}

/// The "Commands:" block with its trailing blank line; empty without commands.
pub open spec fn commands_block(help: PluginHelp) -> Seq<char> {
    if help.commands@.len() == 0 {
        Seq::empty()
    } else {
        "Commands:\n"@ + command_lines(help.commands@) + "\n"@
    }
}

/// The "Examples:" block with its trailing blank line; empty without examples.
pub open spec fn examples_block(help: PluginHelp) -> Seq<char> {
    if help.examples@.len() == 0 {
        Seq::empty()
    } else {
        "Examples:\n"@ + example_lines(help.examples@) + "\n"@
    }
}

/// `line` followed by a newline, or nothing when absent.
pub open spec fn optional_line(line: Option<String>) -> Seq<char> {
    match line {
        Some(s) => s@ + "\n"@,
        None => Seq::empty(),
    }
}

/// The help text of a plugin.
///
/// With structured help: the usage line, a blank line, the commands block,
/// the examples block and the note. Without: `<name> v<version>` and the
/// description, each on a line of its own.
pub open spec fn help_text(info: PluginInfo) -> Seq<char> {
    match info.help {
        Some(help) => help.usage@ + "\n"@ + "\n"@ + commands_block(help) + examples_block(help)
            + optional_line(help.note),
        None => info.name@ + " v"@ + info.version@ + "\n"@ + optional_line(info.description),
    }
}

/// Appends `s` padded with spaces to `width` characters.
fn append_padded(w: &mut String, s: &str, width: usize)
    ensures
        final(w)@ == old(w)@ + pad_right(s@, width as nat),
{
    let ghost start = w@;
    w.append(s);
    let n = s.unicode_len();
    let mut k: usize = n;
    while k < width
        invariant
            n == s@.len(),
            n <= k,
            k == n || k <= width,
            w@ == start + s@ + Seq::new((k - n) as nat, |_i: int| ' '),
        decreases width - k,
    {
        proof {
            reveal_strlit(" ");
        }
        w.append(" ");
        k = k + 1;
        assert(w@ =~= start + s@ + Seq::new((k - n) as nat, |_i: int| ' '));
    }
    if n >= width {
        assert(w@ =~= start + s@);
    } else {
        assert(k == width);
        assert(w@ =~= start + pad_right(s@, width as nat));
    }
}

/// Appends `line` and a newline when present.
fn append_optional_line(w: &mut String, line: &Option<String>)
    ensures
        final(w)@ == old(w)@ + optional_line(*line),
{
    match line {
        Some(s) => {
            w.append(s.as_str());
            w.append("\n");
        },
        None => {
            assert(w@ =~= w@ + Seq::<char>::empty());
        },
    }
}

/// Appends the help text of the plugin to `w`.
///
/// The text goes to whatever destination the caller later writes `w` to.
pub fn write_plugin_help(info: &PluginInfo, w: &mut String)
    ensures
        final(w)@ == old(w)@ + help_text(*info),
{
    let ghost start = w@;
    match &info.help {
        Some(help) => {
            w.append(help.usage.as_str());
            w.append("\n");
            w.append("\n");
            let ghost after_usage = w@;
            if help.commands.len() > 0 {
                w.append("Commands:\n");
                let ghost block_start = w@;
                let mut i: usize = 0;
                while i < help.commands.len()
                    invariant
                        i <= help.commands@.len(),
                        w@ == block_start + command_lines(help.commands@.take(i as int)),
                    decreases help.commands@.len() - i,
                {
                    let entry = &help.commands[i];
                    w.append("  ");
                    append_padded(w, entry.0.as_str(), COMMAND_COLUMN);
                    w.append(" ");
                    w.append(entry.1.as_str());
                    w.append("\n");
                    proof {
                        let taken = help.commands@.take(i + 1);
                        assert(taken.drop_last() =~= help.commands@.take(i as int));
                        assert(taken.last() == help.commands@[i as int]);
                    }
                    i = i + 1;
                    assert(w@ =~= block_start + command_lines(help.commands@.take(i as int)));
                }
                assert(help.commands@.take(i as int) =~= help.commands@);
                w.append("\n");
            }
            assert(w@ =~= after_usage + commands_block(*help));
            let ghost after_commands = w@;
            if help.examples.len() > 0 {
                w.append("Examples:\n");
                let ghost block_start = w@;
                let mut i: usize = 0;
                while i < help.examples.len()
                    invariant
                        i <= help.examples@.len(),
                        w@ == block_start + example_lines(help.examples@.take(i as int)),
                    decreases help.examples@.len() - i,
                {
                    w.append("  ");
                    w.append(help.examples[i].as_str());
                    w.append("\n");
                    proof {
                        let taken = help.examples@.take(i + 1);
                        assert(taken.drop_last() =~= help.examples@.take(i as int));
                        assert(taken.last() == help.examples@[i as int]);
                    }
                    i = i + 1;
                    assert(w@ =~= block_start + example_lines(help.examples@.take(i as int)));
                }
                assert(help.examples@.take(i as int) =~= help.examples@);
                w.append("\n");
            }
            assert(w@ =~= after_commands + examples_block(*help));
            append_optional_line(w, &help.note);
            assert(w@ =~= start + help_text(*info));
        },
        None => {
            w.append(info.name.as_str());
            w.append(" v");
            w.append(info.version.as_str());
            w.append("\n");
            append_optional_line(w, &info.description);
            assert(w@ =~= start + help_text(*info));
        },
    }
}

/// The help text of the plugin, as a string of its own.
pub fn plugin_help_text(info: &PluginInfo) -> (r: String)
    ensures
        r@ == help_text(*info),
{
    let mut w = String::new();
    write_plugin_help(info, &mut w);
    assert(w@ =~= help_text(*info));
    w
}

} // verus!
