use polyphony_tui::messages::{
    demo_messages, message_height, toggle_collapsed, wrapped_line_count, MessageBlock,
    TOOL_MAX_OUTPUT_LINES,
};

fn tool(lines: usize, collapsed: bool, command: &str) -> MessageBlock {
    MessageBlock::ToolOutput {
        title: "title".to_string(),
        command: command.to_string(),
        output: (0..lines).map(|i| format!("line {i}")).collect(),
        collapsed,
    }
}

#[test]
fn wrapped_line_count_edge_cases() {
    assert_eq!(wrapped_line_count("", 10), 1);
    assert_eq!(wrapped_line_count("anything", 0), 1);
    assert_eq!(wrapped_line_count("abc", 3), 1);
    assert_eq!(wrapped_line_count("abcd", 3), 2);
    assert_eq!(wrapped_line_count("abcdefghij", 3), 4);
    assert_eq!(wrapped_line_count("a\n\nb", 5), 3);
    assert_eq!(wrapped_line_count("\n", 5), 2);
}

#[test]
fn wrapped_line_count_counts_bytes() {
    // 'é' takes two bytes, '€' three.
    assert_eq!(wrapped_line_count("éé", 3), 2);
    assert_eq!(wrapped_line_count("€", 2), 2);
    assert_eq!(wrapped_line_count("€€", 6), 1);
}

#[test]
fn message_heights_of_simple_blocks() {
    assert_eq!(message_height(&MessageBlock::AssistantText("hello".to_string()), 20), 3);
    assert_eq!(
        message_height(&MessageBlock::AssistantText("abcdefghij".to_string()), 8),
        4
    );
    assert_eq!(
        message_height(
            &MessageBlock::Thinking { summary: "s".to_string(), body: "b".to_string() },
            20
        ),
        5
    );
    assert_eq!(message_height(&MessageBlock::UserMessage("hi".to_string()), 20), 4);
    assert_eq!(
        message_height(&MessageBlock::InlineResult { icon: "*", label: "x".to_string() }, 20),
        2
    );
    assert_eq!(message_height(&MessageBlock::Error("boom".to_string()), 20), 3);
}

#[test]
fn tool_output_height_depends_on_collapse() {
    assert_eq!(TOOL_MAX_OUTPUT_LINES, 10);
    // 2 frame rows + 2 for the command + 1 + 10 lines + 4 for the cut-off note.
    assert_eq!(message_height(&tool(13, true, "ls"), 80), 19);
    // Expanded: all 13 lines and 2 closing rows.
    assert_eq!(message_height(&tool(13, false, "ls"), 80), 20);
    // Short output is shown whole even when collapsed; no command line.
    assert_eq!(message_height(&tool(3, true, ""), 80), 8);
}

#[test]
fn demo_conversation_shape() {
    let demo = demo_messages();
    assert_eq!(demo.len(), 17);
    match &demo[0] {
        MessageBlock::ToolOutput { title, command, output, collapsed } => {
            assert_eq!(title, "Summarizes tracked file diff");
            assert_eq!(command, "git diff --stat");
            assert_eq!(output.len(), 13);
            assert!(*collapsed);
        },
        _ => panic!("first block should be tool output"),
    }
    assert!(matches!(&demo[10], MessageBlock::Error(e) if e == "Connection timed out after 30s"));
    assert!(matches!(&demo[16], MessageBlock::InlineResult { icon: "\u{25a3}", .. }));
}

#[test]
fn toggling_twice_restores_a_tool_block() {
    let once = toggle_collapsed(tool(12, true, "ls"));
    assert!(matches!(once, MessageBlock::ToolOutput { collapsed: false, .. }));
    let twice = toggle_collapsed(once);
    assert!(matches!(twice, MessageBlock::ToolOutput { collapsed: true, .. }));
    let other = toggle_collapsed(MessageBlock::Error("e".to_string()));
    assert!(matches!(other, MessageBlock::Error(_)));
}
