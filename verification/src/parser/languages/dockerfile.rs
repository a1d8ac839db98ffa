//! Dockerfiles: build stages (`FROM`, named by image and alias) and
//! instructions. The library links no Dockerfile grammar, so the extraction
//! works on a tree that a caller parsed, and the language is not registered
//! by default.
use vstd::prelude::*;
use crate::parser::language::{exports_public, group_exports_public, lemma_fold_exports_public};
use crate::parser::common::{plain_decl_exec, plain_decl_item};
use crate::parser::language::{
    fold_items, fold_nodes, ParseResult, ResultView, SymbolKind, Visibility,
};
use crate::syntax::{find_child, first_child_in, first_line_of, kind_is, ks1, node_first_line, node_text, text_of, SyntaxNode, SyntaxTree};
use crate::text::{concat, str_chars, trim, trim_exec, words, words_exec};

verus! {

pub struct DockerfileLanguage;

/// The image a `FROM` names: the `image_name` in its `image_spec` (else the
/// whole spec) or a direct `image_name`, trimmed; failing both, its second
/// word.
pub open spec fn docker_image_from(src: Seq<char>, n: SyntaxNode, i: int) -> Seq<char>
    decreases n.children@.len() - i,
{
    if i < 0 || i >= n.children@.len() {
        let ws = words(text_of(src, n));
        let a = if ws.len() > 1 {
            ws[1]
        } else {
            Seq::empty()
        };
        if words(a).len() > 0 {
            words(a)[0]
        } else {
            a
        }
    } else {
        let c = n.children@[i];
        if c.kind@ == "image_spec"@ {
            match first_child_in(c.children@, seq!["image_name"@], 0) {
                Some(j) => trim(text_of(src, c.children@[j])),
                None => trim(text_of(src, c)),
            }
        } else if c.kind@ == "image_name"@ {
            trim(text_of(src, c))
        } else {
            docker_image_from(src, n, i + 1)
        }
    }
}

/// `as`, in any case.
pub open spec fn is_as_word(t: Seq<char>) -> bool {
    t.len() == 2 && (t[0] == 'a' || t[0] == 'A') && (t[1] == 's' || t[1] == 'S')
}

/// The stage alias: an alias child, or the child after an `as`, trimmed.
pub open spec fn docker_alias_from(src: Seq<char>, ch: Seq<SyntaxNode>, i: int, found_as: bool) -> Option<
    Seq<char>,
>
    decreases ch.len() - i,
{
    if i < 0 || i >= ch.len() {
        None
    } else {
        let c = ch[i];
        let t = text_of(src, c);
        if c.kind@ == "as_instruction"@ || c.kind@ == "image_alias"@ {
            Some(trim(t))
        } else if is_as_word(t) {
            docker_alias_from(src, ch, i + 1, true)
        } else if found_as {
            Some(trim(t))
        } else {
            docker_alias_from(src, ch, i + 1, found_as)
        }
    }
}

/// A stage's name: its image, with ` (as alias)` when it has one.
pub open spec fn docker_stage_name(src: Seq<char>, n: SyntaxNode) -> Seq<char> {
    let image = docker_image_from(src, n, 0);
    match docker_alias_from(src, n.children@, 0, false) {
        Some(a) => image + " (as "@ + a + ")"@,
        None => image,
    }
}

pub open spec fn is_docker_instruction(k: Seq<char>) -> bool {
    k == "run_instruction"@ || k == "copy_instruction"@ || k == "env_instruction"@ || k
        == "expose_instruction"@ || k == "cmd_instruction"@ || k == "entrypoint_instruction"@ || k
        == "workdir_instruction"@ || k == "arg_instruction"@ || k == "label_instruction"@ || k
        == "add_instruction"@ || k == "volume_instruction"@ || k == "user_instruction"@ || k
        == "healthcheck_instruction"@ || k == "shell_instruction"@ || k
        == "stopsignal_instruction"@ || k == "onbuild_instruction"@ || k
        == "maintainer_instruction"@
}

/// What one top-level node contributes: a stage, or an instruction named by
/// its first line.
pub open spec fn docker_item(src: Seq<char>, n: SyntaxNode) -> ResultView {
    if n.kind@ == "from_instruction"@ {
        plain_decl_item(src, n, docker_stage_name(src, n), SymbolKind::Section, Visibility::Public)
    } else if is_docker_instruction(n.kind@) {
        plain_decl_item(src, n, first_line_of(src, n), SymbolKind::Instruction, Visibility::Public)
    } else {
        ResultView::empty()
    }
}

pub open spec fn docker_extract(source: Seq<char>, root: SyntaxNode) -> ResultView {
    fold_items(root.children@, |n: SyntaxNode| docker_item(source, n))
}

impl DockerfileLanguage {
    fn image(src: &Vec<char>, n: &SyntaxNode) -> (r: Vec<char>)
        ensures
            r@ == docker_image_from(src@, *n, 0),
    {
        let mut i: usize = 0;
        while i < n.children.len()
            invariant
                docker_image_from(src@, *n, 0) == docker_image_from(src@, *n, i as int),
            decreases n.children@.len() - i,
        {
            let c = &n.children[i];
            if kind_is(c, "image_spec") {
                return match find_child(c, &ks1("image_name")) {
                    Some(j) => trim_exec(&node_text(src, &c.children[j])),
                    None => trim_exec(&node_text(src, c)),
                };
            }
            if kind_is(c, "image_name") {
                return trim_exec(&node_text(src, c));
            }
            i += 1;
        }
        let ws = words_exec(&node_text(src, n));
        let a = if ws.len() > 1 {
            ws[1].clone()
        } else {
            Vec::new()
        };
        let wa = words_exec(&a);
        if wa.len() > 0 {
            wa[0].clone()
        } else {
            a
        }
    }

    fn alias(src: &Vec<char>, n: &SyntaxNode) -> (r: Option<Vec<char>>)
        ensures
            r matches Some(v) ==> docker_alias_from(src@, n.children@, 0, false) == Some(v@),
            r is None ==> docker_alias_from(src@, n.children@, 0, false) is None,
    {
        let mut found_as = false;
        let mut i: usize = 0;
        while i < n.children.len()
            invariant
                docker_alias_from(src@, n.children@, 0, false) == docker_alias_from(
                    src@,
                    n.children@,
                    i as int,
                    found_as,
                ),
            decreases n.children@.len() - i,
        {
            let c = &n.children[i];
            let t = node_text(src, c);
            if kind_is(c, "as_instruction") || kind_is(c, "image_alias") {
                return Some(trim_exec(&t));
            }
            if t.len() == 2 && (t[0] == 'a' || t[0] == 'A') && (t[1] == 's' || t[1] == 'S') {
                found_as = true;
            } else if found_as {
                return Some(trim_exec(&t));
            }
            i += 1;
        }
        None
    }

    fn stage_name(src: &Vec<char>, n: &SyntaxNode) -> (r: Vec<char>)
        ensures
            r@ == docker_stage_name(src@, *n),
    {
        let image = Self::image(src, n);
        match Self::alias(src, n) {
            Some(a) => {
                let open = concat(&image, &str_chars(" (as "));
                concat(&concat(&open, &a), &str_chars(")"))
            },
            None => image,
        }
    }

    fn item(src: &Vec<char>, n: &SyntaxNode) -> (r: ParseResult)
        ensures
            r@ == docker_item(src@, *n),
    {
        if kind_is(n, "from_instruction") {
            let name = Self::stage_name(src, n);
            plain_decl_exec(src, n, &name, SymbolKind::Section, Visibility::Public)
        } else if kind_is(n, "run_instruction") || kind_is(n, "copy_instruction") || kind_is(
            n,
            "env_instruction",
        ) || kind_is(n, "expose_instruction") || kind_is(n, "cmd_instruction") || kind_is(
            n,
            "entrypoint_instruction",
        ) || kind_is(n, "workdir_instruction") || kind_is(n, "arg_instruction") || kind_is(
            n,
            "label_instruction",
        ) || kind_is(n, "add_instruction") || kind_is(n, "volume_instruction") || kind_is(
            n,
            "user_instruction",
        ) || kind_is(n, "healthcheck_instruction") || kind_is(n, "shell_instruction") || kind_is(
            n,
            "stopsignal_instruction",
        ) || kind_is(n, "onbuild_instruction") || kind_is(n, "maintainer_instruction") {
            let name = node_first_line(src, n);
            plain_decl_exec(src, n, &name, SymbolKind::Instruction, Visibility::Public)
        } else {
            ParseResult::empty()
        }
    }
}

impl DockerfileLanguage {
    /// The name under which the language is known.
    pub fn name(&self) -> (r: &str)
        ensures
            r@ == "dockerfile"@,
    {
        "dockerfile"
    }

    /// The symbols, imports and exports of `source`, whose tree is `tree`.
    pub fn extract(&self, source: &str, tree: &SyntaxTree) -> (r: ParseResult)
        ensures
            r@ == docker_extract(source@, tree.root),
    {
        let src = str_chars(source);
        fold_nodes(&src, &tree.root.children, Self::item, Ghost(|n: SyntaxNode| docker_item(src@, n)))
    }
}

} // verus!

verus! {

/// Every export of what Dockerfile extraction finds names a public symbol of
/// the same kind: nothing is exported that is not declared public.
pub proof fn law_exports_are_public(source: Seq<char>, root: SyntaxNode)
    ensures
        exports_public(docker_extract(source, root)),
{
    broadcast use group_exports_public;

    lemma_fold_exports_public(root.children@, |n: SyntaxNode| docker_item(source, n));
}

} // verus!
