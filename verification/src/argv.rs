//! The command line of each stage.
//!
//! An engine is called as a program would be: with a list of tokens, the
//! first of which is its name. Each stage has its own fixed vocabulary and
//! order. No token may hold a NUL character, since the engines read their
//! tokens as C strings.

use crate::artifacts::{graph_tag, with_ending};
use crate::error::{BuildError, BuildErrorView, ConfigurationError};
use crate::request::{BuildRequest, BuildRequestView};
use crate::stage::Stage;
use crate::text::{contains_nul, decimal, is_digit, join, joined, to_decimal};
use vstd::prelude::*;

verus! {

/// The flag that announces the references, and the references joined by
/// commas: sequence files before lists before directories.
pub open spec fn reference_tokens(req: BuildRequestView) -> Seq<Seq<char>> {
    if req.ref_seqs.len() > 0 {
        seq!["--seq"@, joined(req.ref_seqs, ","@)]
    } else if req.ref_lists.len() > 0 {
        seq!["--list"@, joined(req.ref_lists, ","@)]
    } else {
        seq!["--dir"@, joined(req.ref_dirs, ","@)]
    }
}

/// The command line of the graph stage.
pub open spec fn graph_tokens(req: BuildRequestView) -> Seq<Seq<char>> {
    seq![Stage::Graph.program()] + reference_tokens(req) + seq![
        "-k"@,
        decimal(req.klen as nat),
        "--track-short-seqs"@,
        "--poly-N-stretch"@,
        "-o"@,
        req.output_prefix + graph_tag(),
        "-t"@,
        decimal(req.threads as nat),
        "-f"@,
        "3"@,
        "-w"@,
        req.work_dir,
    ]
}

/// The token `flag` if `on`, nothing otherwise.
pub open spec fn switch(on: bool, flag: Seq<char>) -> Seq<Seq<char>> {
    if on {
        seq![flag]
    } else {
        Seq::empty()
    }
}

/// The command line of the index stage.
pub open spec fn index_tokens(req: BuildRequestView, quiet: bool) -> Seq<Seq<char>> {
    seq![
        Stage::Index.program(),
        "-i"@,
        req.output_prefix + graph_tag(),
        "-k"@,
        decimal(req.klen as nat),
        "-m"@,
        decimal(req.mlen as nat),
        "--canonical-parsing"@,
    ] + switch(req.build_ec_table, "--build-ec-table"@) + seq![
        "-o"@,
        req.output_prefix,
        "-d"@,
        req.work_dir,
        "-t"@,
        decimal(req.threads as nat),
    ] + switch(quiet, "--quiet"@)
}

/// The command line of the poison stage.
pub open spec fn poison_tokens(req: BuildRequestView, quiet: bool) -> Seq<Seq<char>> {
    seq![Stage::Poison.program(), "-i"@, req.output_prefix, "-t"@, decimal(req.threads as nat)]
        + switch(req.overwrite, "--overwrite"@) + seq!["-d"@, joined(req.decoys(), ","@)] + switch(
        quiet,
        "--quiet"@,
    )
}

/// The command line of `stage`.
pub open spec fn stage_tokens(stage: Stage, req: BuildRequestView, quiet: bool) -> Seq<Seq<char>> {
    match stage {
        Stage::Graph => graph_tokens(req),
        Stage::Index => index_tokens(req, quiet),
        Stage::Poison => poison_tokens(req, quiet),
    }
}

/// Whether every token can be handed over as a C string: none holds NUL.
pub open spec fn marshalable(tokens: Seq<Seq<char>>) -> bool {
    forall|i: int| 0 <= i < tokens.len() ==> !(#[trigger] tokens[i]).contains('\0')
}

/// What marshaling `stage` gives: its command line, or the reason why there
/// is none. The graph stage asks again that the references come in exactly
/// one form.
pub open spec fn marshaled(stage: Stage, req: BuildRequestView, quiet: bool) -> Result<
    Seq<Seq<char>>,
    BuildErrorView,
> {
    if stage == Stage::Graph && req.reference_forms() != 1 {
        Err(BuildErrorView::Configuration(ConfigurationError::ReferenceInput))
    } else if !marshalable(stage_tokens(stage, req, quiet)) {
        Err(BuildErrorView::Marshal { stage })
    } else {
        Ok(stage_tokens(stage, req, quiet))
    }
}

/// Appends `token` to `argv`.
pub(crate) fn push_token(argv: &mut Vec<String>, token: &str)
    ensures
        final(argv).deep_view() == old(argv).deep_view().push(token@),
{
    argv.push(token.to_owned());
    assert(argv.deep_view() =~= old(argv).deep_view().push(token@));
}

/// Appends `token` to `argv`.
pub(crate) fn push_owned(argv: &mut Vec<String>, token: String)
    ensures
        final(argv).deep_view() == old(argv).deep_view().push(token@),
{
    argv.push(token);
    assert(argv.deep_view() =~= old(argv).deep_view().push(token@));
}

/// Appends the token `flag` to `argv` if `on`.
pub(crate) fn push_switch(argv: &mut Vec<String>, on: bool, flag: &str)
    ensures
        final(argv).deep_view() == old(argv).deep_view() + switch(on, flag@),
{
    if on {
        push_token(argv, flag);
    }
    assert(argv.deep_view() =~= old(argv).deep_view() + switch(on, flag@));
}

/// Appends `flag` and the number `value` in base ten to `argv`.
pub(crate) fn push_number(argv: &mut Vec<String>, flag: &str, value: u64)
    ensures
        final(argv).deep_view() == old(argv).deep_view() + seq![flag@, decimal(value as nat)],
{
    push_token(argv, flag);
    push_owned(argv, to_decimal(value));
    assert(argv.deep_view() =~= old(argv).deep_view() + seq![flag@, decimal(value as nat)]);
}

/// Appends `flag` and `value` to `argv`.
pub(crate) fn push_pair(argv: &mut Vec<String>, flag: &str, value: &str)
    ensures
        final(argv).deep_view() == old(argv).deep_view() + seq![flag@, value@],
{
    push_token(argv, flag);
    push_token(argv, value);
    assert(argv.deep_view() =~= old(argv).deep_view() + seq![flag@, value@]);
}

/// Appends `flag` and the items of `list`, joined by commas, to `argv`.
pub(crate) fn push_list(argv: &mut Vec<String>, flag: &str, list: &Vec<String>)
    ensures
        final(argv).deep_view() == old(argv).deep_view() + seq![
            flag@,
            joined(list.deep_view(), ","@),
        ],
{
    push_token(argv, flag);
    push_owned(argv, join(list, ","));
    assert(argv.deep_view() =~= old(argv).deep_view() + seq![
        flag@,
        joined(list.deep_view(), ","@),
    ]);
}

/// Whether no token of `argv` holds a NUL character.
pub fn all_marshalable(argv: &Vec<String>) -> (ok: bool)
    ensures
        ok == marshalable(argv.deep_view()),
{
    let mut i: usize = 0;
    while i < argv.len()
        invariant
            i <= argv.len(),
            forall|j: int| 0 <= j < i ==> !(#[trigger] argv.deep_view()[j]).contains('\0'),
        decreases argv.len() - i,
    {
        assert(argv.deep_view()[i as int] == argv[i as int]@);
        if contains_nul(argv[i].as_str()) {
            return false;
        }
        i += 1;
    }
    true
}

fn graph_argv(req: &BuildRequest) -> (argv: Vec<String>)
    requires
        req@.reference_forms() == 1,
    ensures
        argv.deep_view() == graph_tokens(req@),
{
    let mut argv: Vec<String> = Vec::new();
    assert(argv.deep_view() =~= Seq::<Seq<char>>::empty());
    push_token(&mut argv, Stage::Graph.program_name());
    if req.ref_seqs.len() > 0 {
        push_token(&mut argv, "--seq");
        push_owned(&mut argv, join(&req.ref_seqs, ","));
    } else if req.ref_lists.len() > 0 {
        push_token(&mut argv, "--list");
        push_owned(&mut argv, join(&req.ref_lists, ","));
    } else {
        push_token(&mut argv, "--dir");
        push_owned(&mut argv, join(&req.ref_dirs, ","));
    }
    assert(argv.deep_view() =~= seq![Stage::Graph.program()] + reference_tokens(req@));
    push_token(&mut argv, "-k");
    push_owned(&mut argv, to_decimal(req.klen as u64));
    push_token(&mut argv, "--track-short-seqs");
    push_token(&mut argv, "--poly-N-stretch");
    push_token(&mut argv, "-o");
    push_owned(&mut argv, with_ending(req.output_prefix.as_str(), "_cfish"));
    push_token(&mut argv, "-t");
    push_owned(&mut argv, to_decimal(req.threads as u64));
    push_token(&mut argv, "-f");
    push_token(&mut argv, "3");
    push_token(&mut argv, "-w");
    push_token(&mut argv, req.work_dir.as_str());
    assert(argv.deep_view() =~= graph_tokens(req@));
    argv
}

fn index_argv(req: &BuildRequest, quiet: bool) -> (argv: Vec<String>)
    ensures
        argv.deep_view() == index_tokens(req@, quiet),
{
    let mut argv: Vec<String> = Vec::new();
    assert(argv.deep_view() =~= Seq::<Seq<char>>::empty());
    push_token(&mut argv, Stage::Index.program_name());
    push_token(&mut argv, "-i");
    push_owned(&mut argv, with_ending(req.output_prefix.as_str(), "_cfish"));
    push_token(&mut argv, "-k");
    push_owned(&mut argv, to_decimal(req.klen as u64));
    push_token(&mut argv, "-m");
    push_owned(&mut argv, to_decimal(req.mlen as u64));
    push_token(&mut argv, "--canonical-parsing");
    if req.build_ec_table {
        push_token(&mut argv, "--build-ec-table");
    }
    push_token(&mut argv, "-o");
    push_token(&mut argv, req.output_prefix.as_str());
    push_token(&mut argv, "-d");
    push_token(&mut argv, req.work_dir.as_str());
    push_token(&mut argv, "-t");
    push_owned(&mut argv, to_decimal(req.threads as u64));
    if quiet {
        push_token(&mut argv, "--quiet");
    }
    assert(argv.deep_view() =~= index_tokens(req@, quiet));
    argv
}

fn poison_argv(req: &BuildRequest, quiet: bool) -> (argv: Vec<String>)
    ensures
        argv.deep_view() == poison_tokens(req@, quiet),
{
    let mut argv: Vec<String> = Vec::new();
    assert(argv.deep_view() =~= Seq::<Seq<char>>::empty());
    push_token(&mut argv, Stage::Poison.program_name());
    push_token(&mut argv, "-i");
    push_token(&mut argv, req.output_prefix.as_str());
    push_token(&mut argv, "-t");
    push_owned(&mut argv, to_decimal(req.threads as u64));
    if req.overwrite {
        push_token(&mut argv, "--overwrite");
    }
    push_token(&mut argv, "-d");
    match &req.decoy_paths {
        Some(paths) => {
            push_owned(&mut argv, join(paths, ","));
        },
        None => {
            push_token(&mut argv, "");
            assert(""@ =~= joined(req@.decoys(), ","@)) by {
                reveal_strlit("");
            }
        },
    }
    if quiet {
        push_token(&mut argv, "--quiet");
    }
    assert(argv.deep_view() =~= poison_tokens(req@, quiet));
    argv
}

/// Builds the command line of `stage` for `req`. There is none where the
/// graph stage finds the references in no form or in several, or where a
/// token holds a NUL character.
pub fn marshal(stage: Stage, req: &BuildRequest, quiet: bool) -> (r: Result<
    Vec<String>,
    BuildError,
>)
    ensures
        r matches Ok(argv) ==> marshaled(stage, req@, quiet) == Ok::<
            Seq<Seq<char>>,
            BuildErrorView,
        >(argv.deep_view()),
        r matches Err(e) ==> marshaled(stage, req@, quiet) == Err::<Seq<Seq<char>>, BuildErrorView>(
            e@,
        ),
{
    let argv = match stage {
        Stage::Graph => {
            if req.check_references().is_err() {
                return Err(BuildError::Configuration(ConfigurationError::ReferenceInput));
            }
            graph_argv(req)
        },
        Stage::Index => index_argv(req, quiet),
        Stage::Poison => poison_argv(req, quiet),
    };
    if all_marshalable(&argv) {
        Ok(argv)
    } else {
        Err(BuildError::Marshal { stage })
    }
}

/// Whether `token` is one of the three flags that announce references.
pub open spec fn is_reference_flag(token: Seq<char>) -> bool {
    token == "--seq"@ || token == "--list"@ || token == "--dir"@
}

/// In the graph stage's command line the flag `-k` stands at a fixed place
/// and the k-mer length, in base ten, directly behind it.
pub proof fn law_graph_names_klen(req: BuildRequestView)
    ensures
        graph_tokens(req).len() == 15,
        graph_tokens(req)[3] == "-k"@,
        graph_tokens(req)[4] == decimal(req.klen as nat),
{
}

/// The graph stage's command line announces the references exactly once:
/// its second token is one of the three reference flags, and no other token
/// is. This is stated for requests whose joined references and whose work
/// directory are not themselves spelled like such a flag; those two tokens
/// are handed on as they come.
pub proof fn law_graph_has_one_reference_flag(req: BuildRequestView)
    requires
        !is_reference_flag(reference_tokens(req)[1]),
        !is_reference_flag(req.work_dir),
    ensures
        is_reference_flag(graph_tokens(req)[1]),
        forall|i: int|
            0 <= i < graph_tokens(req).len() && i != 1 ==> !is_reference_flag(
                #[trigger] graph_tokens(req)[i],
            ),
{
    reveal_strlit("--seq");
    reveal_strlit("--list");
    reveal_strlit("--dir");
    reveal_strlit("cdbg_builder");
    reveal_strlit("-k");
    reveal_strlit("--track-short-seqs");
    reveal_strlit("--poly-N-stretch");
    reveal_strlit("-o");
    reveal_strlit("_cfish");
    reveal_strlit("-t");
    reveal_strlit("-f");
    reveal_strlit("3");
    reveal_strlit("-w");
    let tokens = graph_tokens(req);
    let klen = decimal(req.klen as nat);
    let threads = decimal(req.threads as nat);
    let graph_prefix = req.output_prefix + graph_tag();
    assert(is_digit(klen.last()));
    assert(is_digit(threads.last()));
    assert(graph_prefix.last() == 'h');
    assert(!is_reference_flag(klen));
    assert(!is_reference_flag(threads));
    assert(!is_reference_flag(graph_prefix));
    assert forall|i: int| 0 <= i < tokens.len() && i != 1 implies !is_reference_flag(
        #[trigger] tokens[i],
    ) by {
        let t = tokens[i];
        if i == 0 {
            assert(t.len() == 12);
        } else if i == 2 {
            assert(t == reference_tokens(req)[1]);
        } else if i == 3 {
            assert(t.len() == 2);
        } else if i == 4 {
            assert(t == klen);
        } else if i == 5 {
            assert(t.len() == 18);
        } else if i == 6 {
            assert(t.len() == 16);
        } else if i == 7 {
            assert(t.len() == 2);
        } else if i == 8 {
            assert(t == graph_prefix);
        } else if i == 9 {
            assert(t.len() == 2);
        } else if i == 10 {
            assert(t == threads);
        } else if i == 11 {
            assert(t.len() == 2);
        } else if i == 12 {
            assert(t.len() == 1);
        } else if i == 13 {
            assert(t.len() == 2);
        } else {
            assert(t == req.work_dir);
        }
    }
}

} // verus!
