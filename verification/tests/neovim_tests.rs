use toconfig::base::{Config, ConfigTree, RenderContext};
use toconfig::command::{CmdCompletion, UserCommand};
use toconfig::keymap::{KeymapGroup, KeymapNode, MapOpts, MapRhs, Mode};

#[test]
fn completion_lua_texts() {
    assert_eq!(CmdCompletion::File.to_lua(), "'file'");
    assert_eq!(CmdCompletion::Custom("customlist,v:lua.x".into()).to_lua(), "'customlist,v:lua.x'");
}

#[test]
fn user_command_renders_options_in_order() {
    let c = UserCommand::new("Format", "function() vim.lsp.buf.format() end")
        .desc("Format buffer")
        .nargs("0")
        .bang(true)
        .complete(CmdCompletion::Buffer);
    assert_eq!(
        c.generate(),
        "vim.api.nvim_create_user_command('Format', function() vim.lsp.buf.format() end, { desc = 'Format buffer', nargs = '0', bang = true, complete = 'buffer' })"
    );
    assert_eq!(
        UserCommand::new("X", "'echo 1'").generate(),
        "vim.api.nvim_create_user_command('X', 'echo 1', {})"
    );
}

#[test]
fn map_opts_tables() {
    assert_eq!(MapOpts::new().to_lua_table(), "{}");
    assert_eq!(MapOpts::default_safe().to_lua_table(), "{ silent = true, noremap = true }");
    assert_eq!(
        MapOpts::new().expr(true).desc("go").buffer(3).to_lua_table(),
        "{ expr = true, desc = 'go', buffer = 3 }"
    );
}

#[test]
fn keymap_node_renders() {
    let k = KeymapNode::n("<leader>w", MapRhs::cmd("<cmd>w<cr>"));
    assert_eq!(
        k.generate(),
        "vim.keymap.set('n', '<leader>w', '<cmd>w<cr>', { silent = true, noremap = true })"
    );
    let k = KeymapNode::nv("gy", MapRhs::lua("function() end")).desc("yank");
    assert_eq!(
        k.generate(),
        "vim.keymap.set({ 'n', 'v' }, 'gy', function() end, { silent = true, noremap = true, desc = 'yank' })"
    );
    assert_eq!(Mode::VisualBlock.as_str(), "\x16");
    assert_eq!(Mode::Operator.as_str(), "o");
}

#[test]
fn keymap_group_prefixes_maps() {
    let g = KeymapGroup::new("<leader>f")
        .label("Find")
        .add(KeymapNode::n("f", MapRhs::cmd("<cmd>Telescope find_files<cr>")).opts(MapOpts::new()));
    assert_eq!(
        g.generate(),
        "-- Keymaps: Find\nvim.keymap.set('n', '<leader>ff', '<cmd>Telescope find_files<cr>', {})"
    );
}

#[test]
fn config_tree_section_comment_and_indent() {
    let mut tree = ConfigTree::new().with_comment("Keymaps");
    tree.add(Box::new(KeymapNode::i("jk", MapRhs::cmd("<esc>")).opts(MapOpts::new())));
    let ctx = RenderContext { indent_level: 1, indent_width: 2, emit_doc_comments: false };
    assert_eq!(tree.render(&ctx), "  -- Keymaps\n  vim.keymap.set('i', 'jk', '<esc>', {})");
    assert_eq!(tree.validate_all(), Ok(()));
}

#[test]
fn render_context_deeper_adds_width() {
    let ctx = RenderContext::default();
    assert_eq!(ctx.indent(), "");
    assert_eq!(ctx.deeper().indent(), "  ");
    assert_eq!(ctx.deeper().deeper().indent(), "    ");
}

#[test]
fn config_tree_push_and_add_build_the_same_tree() {
    let pushed = ConfigTree::new()
        .with_comment("Keymaps")
        .push(Box::new(KeymapNode::n("<leader>w", MapRhs::cmd("<cmd>w<cr>"))))
        .push(Box::new(KeymapNode::i("jk", MapRhs::cmd("<esc>"))));
    let mut added = ConfigTree::new().with_comment("Keymaps");
    added.add(Box::new(KeymapNode::n("<leader>w", MapRhs::cmd("<cmd>w<cr>"))));
    added.add(Box::new(KeymapNode::i("jk", MapRhs::cmd("<esc>"))));
    assert_eq!(pushed.nodes.len(), 2);
    assert_eq!(added.nodes.len(), 2);
    assert_eq!(pushed.generate(), added.generate());
    assert_eq!(
        pushed.generate(),
        "-- Keymaps\nvim.keymap.set('n', '<leader>w', '<cmd>w<cr>', { silent = true, noremap = true })\n\
         vim.keymap.set('i', 'jk', '<esc>', { silent = true, noremap = true })"
    );
}
