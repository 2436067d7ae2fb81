use toconfig::base::{Config, RenderContext};
use toconfig::fish::{
    quote_fish_value, AbbrPosition, BindMode, FishAbbr, FishAddPath, FishAlias, FishBegin, FishBind,
    FishColor, FishColorVar, FishCompletion, FishCondition, FishConfigTree, FishEvent, FishFor,
    FishFunction, FishGreeting, FishIf, FishPlugin, FishPrompt, FishRawLine, FishSource, FishSwitch,
    FishVariable, FishWhile, VarScope,
};

#[test]
fn quoting_of_values() {
    assert_eq!(quote_fish_value("nvim"), "nvim");
    assert_eq!(quote_fish_value("~/.local/bin:/usr/bin"), "~/.local/bin:/usr/bin");
    assert_eq!(quote_fish_value("hello world"), "'hello world'");
    assert_eq!(quote_fish_value("it's"), "'it\\'s'");
    assert_eq!(quote_fish_value("a\\b c"), "'a\\\\b c'");
    assert_eq!(quote_fish_value(""), "");
}

#[test]
fn variable_renders_flags_in_order() {
    assert_eq!(FishVariable::env("EDITOR", "nvim").generate(), "set -g -x EDITOR nvim");
    assert_eq!(FishVariable::local("x", "1").generate(), "set -l x 1");
    assert_eq!(
        FishVariable::with_values("PATH", &["/usr/bin", "my dir"]).path_list(true).generate(),
        "set --path PATH /usr/bin 'my dir'"
    );
    assert_eq!(FishVariable::universal("u", "v").erase().generate(), "set -U --erase u");
    assert_eq!(FishVariable::new("a", "b").scope(VarScope::Global).generate(), "set -g a b");
}

#[test]
fn alias_abbr_bind_lines() {
    assert_eq!(FishAlias::new("ll", "ls -la").generate(), "alias ll 'ls -la'");
    assert_eq!(FishAbbr::new("gco", "git checkout").generate(), "abbr --add gco 'git checkout'");
    assert_eq!(
        FishAbbr::with_function("!!", "last_history_item").anywhere().generate(),
        "abbr --add --position anywhere --function last_history_item '!!'"
    );
    assert_eq!(
        FishAbbr::new("L", "| less").position(AbbrPosition::Anywhere).set_cursor().generate(),
        "abbr --add --position anywhere --set-cursor L '| less'"
    );
    assert_eq!(
        FishBind::new("\\cf", "forward-word").mode(BindMode::Insert).silent().generate(),
        "bind --mode insert --silent \\cf forward-word"
    );
}

#[test]
fn function_renders_header_and_body() {
    let f = FishFunction::new("mkcd", &["mkdir -p $argv[1]", "cd $argv[1]"])
        .description("make and enter")
        .argument_names(&["dir"])
        .on_event(FishEvent::Variable("PWD".into()));
    assert_eq!(
        f.generate(),
        "function mkcd --description 'make and enter' --argument-names dir --on-variable PWD\n  mkdir -p $argv[1]\n  cd $argv[1]\nend"
    );
}

#[test]
fn completion_renders_parts_in_order() {
    let c = FishCompletion::new("git").short("v").long("verbose").no_files().description("be loud");
    assert_eq!(c.generate(), "complete -c git -s v -l verbose --no-files -d 'be loud'");
}

#[test]
fn path_source_plugin_raw_color() {
    assert_eq!(FishAddPath::new(&["~/.cargo/bin"]).prepend().generate(), "fish_add_path --prepend ~/.cargo/bin");
    assert_eq!(FishSource::new("~/.config/fish/local.fish").generate(), "source ~/.config/fish/local.fish");
    assert_eq!(FishPlugin::new("jorgebucaran/fisher").generate(), "fisher install jorgebucaran/fisher");
    assert_eq!(FishRawLine::new("echo hi").generate(), "echo hi");
    assert_eq!(FishColor::new(FishColorVar::Command, "blue").generate(), "set -g fish_color_command blue");
}

#[test]
fn greeting_and_prompt() {
    assert_eq!(FishGreeting::disabled().generate(), "set -g fish_greeting");
    assert_eq!(FishGreeting::message("Welcome!").generate(), "set -g fish_greeting \"Welcome!\"");
    assert_eq!(
        FishGreeting::message("say \"hi\" to $USER\\").generate(),
        "set -g fish_greeting \"say \\\"hi\\\" to \\$USER\\\\\""
    );
    assert_eq!(FishPrompt::new(&["echo '> '"]).generate(), "function fish_prompt\n  echo '> '\nend");
}

#[test]
fn if_else_blocks() {
    let node = FishIf::new(FishCondition::IsInteractive)
        .add(Box::new(FishRawLine::new("echo a")))
        .else_if(FishCondition::IsLogin, vec![Box::new(FishRawLine::new("echo b"))])
        .add_else(Box::new(FishRawLine::new("echo c")));
    assert_eq!(
        node.generate(),
        "if status is-interactive\n  echo a\nelse if status is-login\n  echo b\nelse\n  echo c\nend"
    );
}

#[test]
fn switch_for_while_begin_blocks() {
    let sw = FishSwitch::new("$os").case("Linux", vec![Box::new(FishRawLine::new("echo tux"))]);
    assert_eq!(sw.generate(), "switch '$os'\n  case Linux\n    echo tux\nend");
    let f = FishFor::new("f", &["a", "b c"]).add(Box::new(FishRawLine::new("echo $f")));
    assert_eq!(f.generate(), "for f in a 'b c'\n  echo $f\nend");
    let w = FishWhile::new(FishCondition::Raw("true".into())).add(Box::new(FishRawLine::new("sleep 1")));
    assert_eq!(w.generate(), "while true\n  sleep 1\nend");
    let b = FishBegin::new().with_comment("scope").add(Box::new(FishRawLine::new("set -l x 1")));
    assert_eq!(b.generate(), "# scope\nbegin\n  set -l x 1\nend");
}

#[test]
fn config_tree_with_doc_comments() {
    let tree = FishConfigTree::new()
        .with_comment("generated")
        .add(Box::new(FishVariable::env("EDITOR", "nvim").doc("default editor")))
        .add(Box::new(FishAlias::new("g", "git")));
    assert_eq!(tree.generate(), "# generated\nset -g -x EDITOR nvim\nalias g git");
    let ctx = RenderContext { indent_level: 0, indent_width: 2, emit_doc_comments: true };
    assert_eq!(
        tree.render(&ctx),
        "# generated\n# default editor\nset -g -x EDITOR nvim\nalias g git"
    );
    assert_eq!(tree.validate_all(), Ok(()));
}

#[test]
fn nested_blocks_indent_by_context() {
    let ctx = RenderContext { indent_level: 1, indent_width: 4, emit_doc_comments: false };
    let b = FishBegin::new().add(Box::new(FishRawLine::new("x")));
    assert_eq!(b.render(&ctx), "    begin\n        x\n    end");
}

#[test]
fn color_var_names_distinct_and_prefixed() {
    let vars = [
        FishColorVar::Normal,
        FishColorVar::Command,
        FishColorVar::EndOfCommand,
        FishColorVar::MatchingParens,
        FishColorVar::Cancel,
        FishColorVar::PagerProgress,
        FishColorVar::PagerSelectedDescription,
    ];
    for (i, a) in vars.iter().enumerate() {
        for b in vars.iter().skip(i + 1) {
            assert_ne!(a.var_name(), b.var_name());
        }
    }
    assert_eq!(FishColorVar::EndOfCommand.var_name(), "fish_color_end");
    assert_eq!(FishColorVar::MatchingParens.var_name(), "fish_color_matching_paren");
    assert!(FishColorVar::PagerProgress.var_name().starts_with("fish_pager_color_"));
    assert!(!FishColorVar::Cancel.var_name().starts_with("fish_pager_color_"));
    assert!(FishColorVar::Cancel.var_name().starts_with("fish_color_"));
}

#[test]
fn fish_tree_add_and_push_node_build_the_same_tree() {
    let added = FishConfigTree::new()
        .add(Box::new(FishVariable::new("EDITOR", "nvim")))
        .add(Box::new(FishGreeting::Disabled));
    let mut pushed = FishConfigTree::new();
    pushed.push_node(Box::new(FishVariable::new("EDITOR", "nvim")));
    pushed.push_node(Box::new(FishGreeting::Disabled));
    assert_eq!(added.nodes.len(), 2);
    assert_eq!(added.generate(), pushed.generate());
}
