//! The commands that are routed to a view: their method names, how their
//! parameters read, and how they are written back.

use vstd::prelude::*;
use crate::json::{Json, is_text, text, push_member, is_empty_container};
use crate::positional::{
    LineRange, MouseAction, line_range_of, mouse_action_of, line_range_items, mouse_action_items,
};
use crate::protocol::GestureType;
use crate::fields::{
    str_field, u64_field, bool_field, opt_str_field, gesture_field, get_str, get_u64, get_bool,
    get_opt_str, get_gesture, opt_str_json, gesture_json, opt_str_value, is_gesture_value,
};

verus! {

/// An edit command that expects no reply.
#[derive(Debug, Clone, PartialEq, Eq)]
pub enum EditNotification {
    Insert { chars: String },
    DeleteForward,
    DeleteBackward,
    DeleteWordForward,
    DeleteWordBackward,
    DeleteToEndOfParagraph,
    DeleteToBeginningOfLine,
    InsertNewline,
    InsertTab,
    MoveUp,
    MoveUpAndModifySelection,
    MoveDown,
    MoveDownAndModifySelection,
    MoveLeft,
    MoveLeftAndModifySelection,
    MoveRight,
    MoveRightAndModifySelection,
    MoveWordLeft,
    MoveWordLeftAndModifySelection,
    MoveWordRight,
    MoveWordRightAndModifySelection,
    MoveToBeginningOfParagraph,
    MoveToEndOfParagraph,
    MoveToLeftEndOfLine,
    MoveToLeftEndOfLineAndModifySelection,
    MoveToRightEndOfLine,
    MoveToRightEndOfLineAndModifySelection,
    MoveToBeginningOfDocument,
    MoveToBeginningOfDocumentAndModifySelection,
    MoveToEndOfDocument,
    MoveToEndOfDocumentAndModifySelection,
    ScrollPageUp,
    PageUpAndModifySelection,
    ScrollPageDown,
    PageDownAndModifySelection,
    SelectAll,
    AddSelectionAbove,
    AddSelectionBelow,
    Scroll(LineRange),
    GotoLine { line: u64 },
    RequestLines(LineRange),
    Yank,
    Transpose,
    Click(MouseAction),
    Drag(MouseAction),
    Gesture { line: u64, column: u64, ty: GestureType },
    Undo,
    Redo,
    FindNext { wrap_around: bool, allow_same: bool },
    FindPrevious { wrap_around: bool },
    DebugRewrap,
    DebugPrintSpans,
}

/// The position of `m` in the list of edit_notification methods, or -1 when it is none of them.
pub open spec fn edit_notification_index(m: Seq<char>) -> int {
    if m == "insert"@ {
        0
    } else if m == "delete_forward"@ {
        1
    } else if m == "delete_backward"@ {
        2
    } else if m == "delete_word_forward"@ {
        3
    } else if m == "delete_word_backward"@ {
        4
    } else if m == "delete_to_end_of_paragraph"@ {
        5
    } else if m == "delete_to_beginning_of_line"@ {
        6
    } else if m == "insert_newline"@ {
        7
    } else if m == "insert_tab"@ {
        8
    } else if m == "move_up"@ {
        9
    } else if m == "move_up_and_modify_selection"@ {
        10
    } else if m == "move_down"@ {
        11
    } else if m == "move_down_and_modify_selection"@ {
        12
    } else if m == "move_left"@ {
        13
    } else if m == "move_left_and_modify_selection"@ {
        14
    } else if m == "move_right"@ {
        15
    } else if m == "move_right_and_modify_selection"@ {
        16
    } else if m == "move_word_left"@ {
        17
    } else if m == "move_word_left_and_modify_selection"@ {
        18
    } else if m == "move_word_right"@ {
        19
    } else if m == "move_word_right_and_modify_selection"@ {
        20
    } else if m == "move_to_beginning_of_paragraph"@ {
        21
    } else if m == "move_to_end_of_paragraph"@ {
        22
    } else if m == "move_to_left_end_of_line"@ {
        23
    } else if m == "move_to_left_end_of_line_and_modify_selection"@ {
        24
    } else if m == "move_to_right_end_of_line"@ {
        25
    } else if m == "move_to_right_end_of_line_and_modify_selection"@ {
        26
    } else if m == "move_to_beginning_of_document"@ {
        27
    } else if m == "move_to_beginning_of_document_and_modify_selection"@ {
        28
    } else if m == "move_to_end_of_document"@ {
        29
    } else if m == "move_to_end_of_document_and_modify_selection"@ {
        30
    } else if m == "scroll_page_up"@ {
        31
    } else if m == "page_up_and_modify_selection"@ {
        32
    } else if m == "scroll_page_down"@ {
        33
    } else if m == "page_down_and_modify_selection"@ {
        34
    } else if m == "select_all"@ {
        35
    } else if m == "add_selection_above"@ {
        36
    } else if m == "add_selection_below"@ {
        37
    } else if m == "scroll"@ {
        38
    } else if m == "goto_line"@ {
        39
    } else if m == "request_lines"@ {
        40
    } else if m == "yank"@ {
        41
    } else if m == "transpose"@ {
        42
    } else if m == "click"@ {
        43
    } else if m == "drag"@ {
        44
    } else if m == "gesture"@ {
        45
    } else if m == "undo"@ {
        46
    } else if m == "redo"@ {
        47
    } else if m == "find_next"@ {
        48
    } else if m == "find_previous"@ {
        49
    } else if m == "debug_rewrap"@ {
        50
    } else if m == "debug_print_spans"@ {
        51
    } else {
        -1
    }
}

/// Whether `m` names a edit notification.
pub open spec fn is_edit_notification_method(m: Seq<char>) -> bool {
    edit_notification_index(m) >= 0
}

/// The edit notification with method number `k` whose parameters are `p`, if `p` fits it.
pub open spec fn edit_notification_at(k: int, p: Option<Json>) -> Option<EditNotification> {
    if k == 0 {
        match p {
            Some(Json::Object(fs)) => match str_field(fs@, "chars"@) {
                Some(chars) => Some(EditNotification::Insert { chars }),
                _ => None,
            },
            _ => None,
        }
    } else if k == 1 {
        if p is None {
            Some(EditNotification::DeleteForward)
        } else {
            None
        }
    } else if k == 2 {
        if p is None {
            Some(EditNotification::DeleteBackward)
        } else {
            None
        }
    } else if k == 3 {
        if p is None {
            Some(EditNotification::DeleteWordForward)
        } else {
            None
        }
    } else if k == 4 {
        if p is None {
            Some(EditNotification::DeleteWordBackward)
        } else {
            None
        }
    } else if k == 5 {
        if p is None {
            Some(EditNotification::DeleteToEndOfParagraph)
        } else {
            None
        }
    } else if k == 6 {
        if p is None {
            Some(EditNotification::DeleteToBeginningOfLine)
        } else {
            None
        }
    } else if k == 7 {
        if p is None {
            Some(EditNotification::InsertNewline)
        } else {
            None
        }
    } else if k == 8 {
        if p is None {
            Some(EditNotification::InsertTab)
        } else {
            None
        }
    } else if k == 9 {
        if p is None {
            Some(EditNotification::MoveUp)
        } else {
            None
        }
    } else if k == 10 {
        if p is None {
            Some(EditNotification::MoveUpAndModifySelection)
        } else {
            None
        }
    } else if k == 11 {
        if p is None {
            Some(EditNotification::MoveDown)
        } else {
            None
        }
    } else if k == 12 {
        if p is None {
            Some(EditNotification::MoveDownAndModifySelection)
        } else {
            None
        }
    } else if k == 13 {
        if p is None {
            Some(EditNotification::MoveLeft)
        } else {
            None
        }
    } else if k == 14 {
        if p is None {
            Some(EditNotification::MoveLeftAndModifySelection)
        } else {
            None
        }
    } else if k == 15 {
        if p is None {
            Some(EditNotification::MoveRight)
        } else {
            None
        }
    } else if k == 16 {
        if p is None {
            Some(EditNotification::MoveRightAndModifySelection)
        } else {
            None
        }
    } else if k == 17 {
        if p is None {
            Some(EditNotification::MoveWordLeft)
        } else {
            None
        }
    } else if k == 18 {
        if p is None {
            Some(EditNotification::MoveWordLeftAndModifySelection)
        } else {
            None
        }
    } else if k == 19 {
        if p is None {
            Some(EditNotification::MoveWordRight)
        } else {
            None
        }
    } else if k == 20 {
        if p is None {
            Some(EditNotification::MoveWordRightAndModifySelection)
        } else {
            None
        }
    } else if k == 21 {
        if p is None {
            Some(EditNotification::MoveToBeginningOfParagraph)
        } else {
            None
        }
    } else if k == 22 {
        if p is None {
            Some(EditNotification::MoveToEndOfParagraph)
        } else {
            None
        }
    } else if k == 23 {
        if p is None {
            Some(EditNotification::MoveToLeftEndOfLine)
        } else {
            None
        }
    } else if k == 24 {
        if p is None {
            Some(EditNotification::MoveToLeftEndOfLineAndModifySelection)
        } else {
            None
        }
    } else if k == 25 {
        if p is None {
            Some(EditNotification::MoveToRightEndOfLine)
        } else {
            None
        }
    } else if k == 26 {
        if p is None {
            Some(EditNotification::MoveToRightEndOfLineAndModifySelection)
        } else {
            None
        }
    } else if k == 27 {
        if p is None {
            Some(EditNotification::MoveToBeginningOfDocument)
        } else {
            None
        }
    } else if k == 28 {
        if p is None {
            Some(EditNotification::MoveToBeginningOfDocumentAndModifySelection)
        } else {
            None
        }
    } else if k == 29 {
        if p is None {
            Some(EditNotification::MoveToEndOfDocument)
        } else {
            None
        }
    } else if k == 30 {
        if p is None {
            Some(EditNotification::MoveToEndOfDocumentAndModifySelection)
        } else {
            None
        }
    } else if k == 31 {
        if p is None {
            Some(EditNotification::ScrollPageUp)
        } else {
            None
        }
    } else if k == 32 {
        if p is None {
            Some(EditNotification::PageUpAndModifySelection)
        } else {
            None
        }
    } else if k == 33 {
        if p is None {
            Some(EditNotification::ScrollPageDown)
        } else {
            None
        }
    } else if k == 34 {
        if p is None {
            Some(EditNotification::PageDownAndModifySelection)
        } else {
            None
        }
    } else if k == 35 {
        if p is None {
            Some(EditNotification::SelectAll)
        } else {
            None
        }
    } else if k == 36 {
        if p is None {
            Some(EditNotification::AddSelectionAbove)
        } else {
            None
        }
    } else if k == 37 {
        if p is None {
            Some(EditNotification::AddSelectionBelow)
        } else {
            None
        }
    } else if k == 38 {
        match p {
            Some(j) => match line_range_of(j) {
                Some(x) => Some(EditNotification::Scroll(x)),
                None => None,
            },
            None => None,
        }
    } else if k == 39 {
        match p {
            Some(Json::Object(fs)) => match u64_field(fs@, "line"@) {
                Some(line) => Some(EditNotification::GotoLine { line }),
                _ => None,
            },
            _ => None,
        }
    } else if k == 40 {
        match p {
            Some(j) => match line_range_of(j) {
                Some(x) => Some(EditNotification::RequestLines(x)),
                None => None,
            },
            None => None,
        }
    } else if k == 41 {
        if p is None {
            Some(EditNotification::Yank)
        } else {
            None
        }
    } else if k == 42 {
        if p is None {
            Some(EditNotification::Transpose)
        } else {
            None
        }
    } else if k == 43 {
        match p {
            Some(j) => match mouse_action_of(j) {
                Some(x) => Some(EditNotification::Click(x)),
                None => None,
            },
            None => None,
        }
    } else if k == 44 {
        match p {
            Some(j) => match mouse_action_of(j) {
                Some(x) => Some(EditNotification::Drag(x)),
                None => None,
            },
            None => None,
        }
    } else if k == 45 {
        match p {
            Some(Json::Object(fs)) => match (u64_field(fs@, "line"@), u64_field(fs@, "column"@), gesture_field(fs@, "ty"@)) {
                (Some(line), Some(column), Some(ty)) => Some(EditNotification::Gesture { line, column, ty }),
                _ => None,
            },
            _ => None,
        }
    } else if k == 46 {
        if p is None {
            Some(EditNotification::Undo)
        } else {
            None
        }
    } else if k == 47 {
        if p is None {
            Some(EditNotification::Redo)
        } else {
            None
        }
    } else if k == 48 {
        match p {
            Some(Json::Object(fs)) => match (bool_field(fs@, "wrap_around"@), bool_field(fs@, "allow_same"@)) {
                (Some(wrap_around), Some(allow_same)) => Some(EditNotification::FindNext { wrap_around, allow_same }),
                _ => None,
            },
            _ => None,
        }
    } else if k == 49 {
        match p {
            Some(Json::Object(fs)) => match bool_field(fs@, "wrap_around"@) {
                Some(wrap_around) => Some(EditNotification::FindPrevious { wrap_around }),
                _ => None,
            },
            _ => None,
        }
    } else if k == 50 {
        if p is None {
            Some(EditNotification::DebugRewrap)
        } else {
            None
        }
    } else if k == 51 {
        if p is None {
            Some(EditNotification::DebugPrintSpans)
        } else {
            None
        }
    } else {
        None
    }
}

/// The edit notification that method `m` with parameters `p` denotes.
pub open spec fn edit_notification_of(m: Seq<char>, p: Option<Json>) -> Option<EditNotification> {
    edit_notification_at(edit_notification_index(m), p)
}

/// Each method name stands at its own position: the names differ in
/// length, or else at the character shown.
proof fn lemma_edit_notification_names()
    ensures
        edit_notification_index("insert"@) == 0,
        edit_notification_index("delete_forward"@) == 1,
        edit_notification_index("delete_backward"@) == 2,
        edit_notification_index("delete_word_forward"@) == 3,
        edit_notification_index("delete_word_backward"@) == 4,
        edit_notification_index("delete_to_end_of_paragraph"@) == 5,
        edit_notification_index("delete_to_beginning_of_line"@) == 6,
        edit_notification_index("insert_newline"@) == 7,
        edit_notification_index("insert_tab"@) == 8,
        edit_notification_index("move_up"@) == 9,
        edit_notification_index("move_up_and_modify_selection"@) == 10,
        edit_notification_index("move_down"@) == 11,
        edit_notification_index("move_down_and_modify_selection"@) == 12,
        edit_notification_index("move_left"@) == 13,
        edit_notification_index("move_left_and_modify_selection"@) == 14,
        edit_notification_index("move_right"@) == 15,
        edit_notification_index("move_right_and_modify_selection"@) == 16,
        edit_notification_index("move_word_left"@) == 17,
        edit_notification_index("move_word_left_and_modify_selection"@) == 18,
        edit_notification_index("move_word_right"@) == 19,
        edit_notification_index("move_word_right_and_modify_selection"@) == 20,
        edit_notification_index("move_to_beginning_of_paragraph"@) == 21,
        edit_notification_index("move_to_end_of_paragraph"@) == 22,
        edit_notification_index("move_to_left_end_of_line"@) == 23,
        edit_notification_index("move_to_left_end_of_line_and_modify_selection"@) == 24,
        edit_notification_index("move_to_right_end_of_line"@) == 25,
        edit_notification_index("move_to_right_end_of_line_and_modify_selection"@) == 26,
        edit_notification_index("move_to_beginning_of_document"@) == 27,
        edit_notification_index("move_to_beginning_of_document_and_modify_selection"@) == 28,
        edit_notification_index("move_to_end_of_document"@) == 29,
        edit_notification_index("move_to_end_of_document_and_modify_selection"@) == 30,
        edit_notification_index("scroll_page_up"@) == 31,
        edit_notification_index("page_up_and_modify_selection"@) == 32,
        edit_notification_index("scroll_page_down"@) == 33,
        edit_notification_index("page_down_and_modify_selection"@) == 34,
        edit_notification_index("select_all"@) == 35,
        edit_notification_index("add_selection_above"@) == 36,
        edit_notification_index("add_selection_below"@) == 37,
        edit_notification_index("scroll"@) == 38,
        edit_notification_index("goto_line"@) == 39,
        edit_notification_index("request_lines"@) == 40,
        edit_notification_index("yank"@) == 41,
        edit_notification_index("transpose"@) == 42,
        edit_notification_index("click"@) == 43,
        edit_notification_index("drag"@) == 44,
        edit_notification_index("gesture"@) == 45,
        edit_notification_index("undo"@) == 46,
        edit_notification_index("redo"@) == 47,
        edit_notification_index("find_next"@) == 48,
        edit_notification_index("find_previous"@) == 49,
        edit_notification_index("debug_rewrap"@) == 50,
        edit_notification_index("debug_print_spans"@) == 51,
{
    reveal_strlit("insert");
    assert("insert"@.len() == 6);
    reveal_strlit("delete_forward");
    assert("delete_forward"@.len() == 14);
    reveal_strlit("delete_backward");
    assert("delete_backward"@.len() == 15);
    reveal_strlit("delete_word_forward");
    assert("delete_word_forward"@.len() == 19);
    reveal_strlit("delete_word_backward");
    assert("delete_word_backward"@.len() == 20);
    reveal_strlit("delete_to_end_of_paragraph");
    assert("delete_to_end_of_paragraph"@.len() == 26);
    reveal_strlit("delete_to_beginning_of_line");
    assert("delete_to_beginning_of_line"@.len() == 27);
    reveal_strlit("insert_newline");
    assert("insert_newline"@.len() == 14);
    reveal_strlit("insert_tab");
    assert("insert_tab"@.len() == 10);
    reveal_strlit("move_up");
    assert("move_up"@.len() == 7);
    reveal_strlit("move_up_and_modify_selection");
    assert("move_up_and_modify_selection"@.len() == 28);
    reveal_strlit("move_down");
    assert("move_down"@.len() == 9);
    reveal_strlit("move_down_and_modify_selection");
    assert("move_down_and_modify_selection"@.len() == 30);
    reveal_strlit("move_left");
    assert("move_left"@.len() == 9);
    reveal_strlit("move_left_and_modify_selection");
    assert("move_left_and_modify_selection"@.len() == 30);
    reveal_strlit("move_right");
    assert("move_right"@.len() == 10);
    reveal_strlit("move_right_and_modify_selection");
    assert("move_right_and_modify_selection"@.len() == 31);
    reveal_strlit("move_word_left");
    assert("move_word_left"@.len() == 14);
    reveal_strlit("move_word_left_and_modify_selection");
    assert("move_word_left_and_modify_selection"@.len() == 35);
    reveal_strlit("move_word_right");
    assert("move_word_right"@.len() == 15);
    reveal_strlit("move_word_right_and_modify_selection");
    assert("move_word_right_and_modify_selection"@.len() == 36);
    reveal_strlit("move_to_beginning_of_paragraph");
    assert("move_to_beginning_of_paragraph"@.len() == 30);
    reveal_strlit("move_to_end_of_paragraph");
    assert("move_to_end_of_paragraph"@.len() == 24);
    reveal_strlit("move_to_left_end_of_line");
    assert("move_to_left_end_of_line"@.len() == 24);
    reveal_strlit("move_to_left_end_of_line_and_modify_selection");
    assert("move_to_left_end_of_line_and_modify_selection"@.len() == 45);
    reveal_strlit("move_to_right_end_of_line");
    assert("move_to_right_end_of_line"@.len() == 25);
    reveal_strlit("move_to_right_end_of_line_and_modify_selection");
    assert("move_to_right_end_of_line_and_modify_selection"@.len() == 46);
    reveal_strlit("move_to_beginning_of_document");
    assert("move_to_beginning_of_document"@.len() == 29);
    reveal_strlit("move_to_beginning_of_document_and_modify_selection");
    assert("move_to_beginning_of_document_and_modify_selection"@.len() == 50);
    reveal_strlit("move_to_end_of_document");
    assert("move_to_end_of_document"@.len() == 23);
    reveal_strlit("move_to_end_of_document_and_modify_selection");
    assert("move_to_end_of_document_and_modify_selection"@.len() == 44);
    reveal_strlit("scroll_page_up");
    assert("scroll_page_up"@.len() == 14);
    reveal_strlit("page_up_and_modify_selection");
    assert("page_up_and_modify_selection"@.len() == 28);
    reveal_strlit("scroll_page_down");
    assert("scroll_page_down"@.len() == 16);
    reveal_strlit("page_down_and_modify_selection");
    assert("page_down_and_modify_selection"@.len() == 30);
    reveal_strlit("select_all");
    assert("select_all"@.len() == 10);
    reveal_strlit("add_selection_above");
    assert("add_selection_above"@.len() == 19);
    reveal_strlit("add_selection_below");
    assert("add_selection_below"@.len() == 19);
    reveal_strlit("scroll");
    assert("scroll"@.len() == 6);
    reveal_strlit("goto_line");
    assert("goto_line"@.len() == 9);
    reveal_strlit("request_lines");
    assert("request_lines"@.len() == 13);
    reveal_strlit("yank");
    assert("yank"@.len() == 4);
    reveal_strlit("transpose");
    assert("transpose"@.len() == 9);
    reveal_strlit("click");
    assert("click"@.len() == 5);
    reveal_strlit("drag");
    assert("drag"@.len() == 4);
    reveal_strlit("gesture");
    assert("gesture"@.len() == 7);
    reveal_strlit("undo");
    assert("undo"@.len() == 4);
    reveal_strlit("redo");
    assert("redo"@.len() == 4);
    reveal_strlit("find_next");
    assert("find_next"@.len() == 9);
    reveal_strlit("find_previous");
    assert("find_previous"@.len() == 13);
    reveal_strlit("debug_rewrap");
    assert("debug_rewrap"@.len() == 12);
    reveal_strlit("debug_print_spans");
    assert("debug_print_spans"@.len() == 17);
    assert("insert_newline"@[0] != "delete_forward"@[0]);
    assert("move_left"@[5] != "move_down"@[5]);
    assert("move_left_and_modify_selection"@[5] != "move_down_and_modify_selection"@[5]);
    assert("move_right"@[0] != "insert_tab"@[0]);
    assert("move_word_left"@[0] != "delete_forward"@[0]);
    assert("move_word_left"@[0] != "insert_newline"@[0]);
    assert("move_word_right"@[0] != "delete_backward"@[0]);
    assert("move_to_beginning_of_paragraph"@[5] != "move_down_and_modify_selection"@[5]);
    assert("move_to_beginning_of_paragraph"@[5] != "move_left_and_modify_selection"@[5]);
    assert("move_to_left_end_of_line"@[8] != "move_to_end_of_paragraph"@[8]);
    assert("scroll_page_up"@[0] != "delete_forward"@[0]);
    assert("scroll_page_up"@[0] != "insert_newline"@[0]);
    assert("scroll_page_up"@[0] != "move_word_left"@[0]);
    assert("page_up_and_modify_selection"@[0] != "move_up_and_modify_selection"@[0]);
    assert("page_down_and_modify_selection"@[0] != "move_down_and_modify_selection"@[0]);
    assert("page_down_and_modify_selection"@[0] != "move_left_and_modify_selection"@[0]);
    assert("page_down_and_modify_selection"@[0] != "move_to_beginning_of_paragraph"@[0]);
    assert("select_all"@[0] != "insert_tab"@[0]);
    assert("select_all"@[0] != "move_right"@[0]);
    assert("add_selection_above"@[0] != "delete_word_forward"@[0]);
    assert("add_selection_below"@[0] != "delete_word_forward"@[0]);
    assert("add_selection_below"@[14] != "add_selection_above"@[14]);
    assert("scroll"@[0] != "insert"@[0]);
    assert("goto_line"@[0] != "move_down"@[0]);
    assert("goto_line"@[0] != "move_left"@[0]);
    assert("transpose"@[0] != "move_down"@[0]);
    assert("transpose"@[0] != "move_left"@[0]);
    assert("transpose"@[0] != "goto_line"@[0]);
    assert("drag"@[0] != "yank"@[0]);
    assert("gesture"@[0] != "move_up"@[0]);
    assert("undo"@[0] != "yank"@[0]);
    assert("undo"@[0] != "drag"@[0]);
    assert("redo"@[0] != "yank"@[0]);
    assert("redo"@[0] != "drag"@[0]);
    assert("redo"@[0] != "undo"@[0]);
    assert("find_next"@[0] != "move_down"@[0]);
    assert("find_next"@[0] != "move_left"@[0]);
    assert("find_next"@[0] != "goto_line"@[0]);
    assert("find_next"@[0] != "transpose"@[0]);
    assert("find_previous"@[0] != "request_lines"@[0]);
}

/// The method name that writes `c`.
pub open spec fn edit_notification_name(c: EditNotification) -> Seq<char> {
    match c {
        EditNotification::Insert { .. } => "insert"@,
        EditNotification::DeleteForward => "delete_forward"@,
        EditNotification::DeleteBackward => "delete_backward"@,
        EditNotification::DeleteWordForward => "delete_word_forward"@,
        EditNotification::DeleteWordBackward => "delete_word_backward"@,
        EditNotification::DeleteToEndOfParagraph => "delete_to_end_of_paragraph"@,
        EditNotification::DeleteToBeginningOfLine => "delete_to_beginning_of_line"@,
        EditNotification::InsertNewline => "insert_newline"@,
        EditNotification::InsertTab => "insert_tab"@,
        EditNotification::MoveUp => "move_up"@,
        EditNotification::MoveUpAndModifySelection => "move_up_and_modify_selection"@,
        EditNotification::MoveDown => "move_down"@,
        EditNotification::MoveDownAndModifySelection => "move_down_and_modify_selection"@,
        EditNotification::MoveLeft => "move_left"@,
        EditNotification::MoveLeftAndModifySelection => "move_left_and_modify_selection"@,
        EditNotification::MoveRight => "move_right"@,
        EditNotification::MoveRightAndModifySelection => "move_right_and_modify_selection"@,
        EditNotification::MoveWordLeft => "move_word_left"@,
        EditNotification::MoveWordLeftAndModifySelection => "move_word_left_and_modify_selection"@,
        EditNotification::MoveWordRight => "move_word_right"@,
        EditNotification::MoveWordRightAndModifySelection => "move_word_right_and_modify_selection"@,
        EditNotification::MoveToBeginningOfParagraph => "move_to_beginning_of_paragraph"@,
        EditNotification::MoveToEndOfParagraph => "move_to_end_of_paragraph"@,
        EditNotification::MoveToLeftEndOfLine => "move_to_left_end_of_line"@,
        EditNotification::MoveToLeftEndOfLineAndModifySelection => "move_to_left_end_of_line_and_modify_selection"@,
        EditNotification::MoveToRightEndOfLine => "move_to_right_end_of_line"@,
        EditNotification::MoveToRightEndOfLineAndModifySelection => "move_to_right_end_of_line_and_modify_selection"@,
        EditNotification::MoveToBeginningOfDocument => "move_to_beginning_of_document"@,
        EditNotification::MoveToBeginningOfDocumentAndModifySelection => "move_to_beginning_of_document_and_modify_selection"@,
        EditNotification::MoveToEndOfDocument => "move_to_end_of_document"@,
        EditNotification::MoveToEndOfDocumentAndModifySelection => "move_to_end_of_document_and_modify_selection"@,
        EditNotification::ScrollPageUp => "scroll_page_up"@,
        EditNotification::PageUpAndModifySelection => "page_up_and_modify_selection"@,
        EditNotification::ScrollPageDown => "scroll_page_down"@,
        EditNotification::PageDownAndModifySelection => "page_down_and_modify_selection"@,
        EditNotification::SelectAll => "select_all"@,
        EditNotification::AddSelectionAbove => "add_selection_above"@,
        EditNotification::AddSelectionBelow => "add_selection_below"@,
        EditNotification::Scroll(_) => "scroll"@,
        EditNotification::GotoLine { .. } => "goto_line"@,
        EditNotification::RequestLines(_) => "request_lines"@,
        EditNotification::Yank => "yank"@,
        EditNotification::Transpose => "transpose"@,
        EditNotification::Click(_) => "click"@,
        EditNotification::Drag(_) => "drag"@,
        EditNotification::Gesture { .. } => "gesture"@,
        EditNotification::Undo => "undo"@,
        EditNotification::Redo => "redo"@,
        EditNotification::FindNext { .. } => "find_next"@,
        EditNotification::FindPrevious { .. } => "find_previous"@,
        EditNotification::DebugRewrap => "debug_rewrap"@,
        EditNotification::DebugPrintSpans => "debug_print_spans"@,
    }
}

/// Whether `p` is exactly the parameters that write `c`: none for a command
/// without any, an array for a positional one, else an object with one member
/// per field, in order.
pub open spec fn edit_notification_params_are(c: EditNotification, p: Option<Json>) -> bool {
    match c {
        EditNotification::Insert { chars } => match p {
            Some(Json::Object(fs)) => fs@.len() == 1
                && fs@[0].0@ == "chars"@
                && fs@[0].1 == Json::Str(chars),
            _ => false,
        },
        EditNotification::DeleteForward => p is None,
        EditNotification::DeleteBackward => p is None,
        EditNotification::DeleteWordForward => p is None,
        EditNotification::DeleteWordBackward => p is None,
        EditNotification::DeleteToEndOfParagraph => p is None,
        EditNotification::DeleteToBeginningOfLine => p is None,
        EditNotification::InsertNewline => p is None,
        EditNotification::InsertTab => p is None,
        EditNotification::MoveUp => p is None,
        EditNotification::MoveUpAndModifySelection => p is None,
        EditNotification::MoveDown => p is None,
        EditNotification::MoveDownAndModifySelection => p is None,
        EditNotification::MoveLeft => p is None,
        EditNotification::MoveLeftAndModifySelection => p is None,
        EditNotification::MoveRight => p is None,
        EditNotification::MoveRightAndModifySelection => p is None,
        EditNotification::MoveWordLeft => p is None,
        EditNotification::MoveWordLeftAndModifySelection => p is None,
        EditNotification::MoveWordRight => p is None,
        EditNotification::MoveWordRightAndModifySelection => p is None,
        EditNotification::MoveToBeginningOfParagraph => p is None,
        EditNotification::MoveToEndOfParagraph => p is None,
        EditNotification::MoveToLeftEndOfLine => p is None,
        EditNotification::MoveToLeftEndOfLineAndModifySelection => p is None,
        EditNotification::MoveToRightEndOfLine => p is None,
        EditNotification::MoveToRightEndOfLineAndModifySelection => p is None,
        EditNotification::MoveToBeginningOfDocument => p is None,
        EditNotification::MoveToBeginningOfDocumentAndModifySelection => p is None,
        EditNotification::MoveToEndOfDocument => p is None,
        EditNotification::MoveToEndOfDocumentAndModifySelection => p is None,
        EditNotification::ScrollPageUp => p is None,
        EditNotification::PageUpAndModifySelection => p is None,
        EditNotification::ScrollPageDown => p is None,
        EditNotification::PageDownAndModifySelection => p is None,
        EditNotification::SelectAll => p is None,
        EditNotification::AddSelectionAbove => p is None,
        EditNotification::AddSelectionBelow => p is None,
        EditNotification::Scroll(x) => match p {
            Some(Json::Array(v)) => v@ == line_range_items(x),
            _ => false,
        },
        EditNotification::GotoLine { line } => match p {
            Some(Json::Object(fs)) => fs@.len() == 1
                && fs@[0].0@ == "line"@
                && fs@[0].1 == Json::Int(line),
            _ => false,
        },
        EditNotification::RequestLines(x) => match p {
            Some(Json::Array(v)) => v@ == line_range_items(x),
            _ => false,
        },
        EditNotification::Yank => p is None,
        EditNotification::Transpose => p is None,
        EditNotification::Click(x) => match p {
            Some(Json::Array(v)) => v@ == mouse_action_items(x),
            _ => false,
        },
        EditNotification::Drag(x) => match p {
            Some(Json::Array(v)) => v@ == mouse_action_items(x),
            _ => false,
        },
        EditNotification::Gesture { line, column, ty } => match p {
            Some(Json::Object(fs)) => fs@.len() == 3
                && fs@[0].0@ == "line"@
                && fs@[0].1 == Json::Int(line)
                && fs@[1].0@ == "column"@
                && fs@[1].1 == Json::Int(column)
                && fs@[2].0@ == "ty"@
                && is_gesture_value(fs@[2].1, ty),
            _ => false,
        },
        EditNotification::Undo => p is None,
        EditNotification::Redo => p is None,
        EditNotification::FindNext { wrap_around, allow_same } => match p {
            Some(Json::Object(fs)) => fs@.len() == 2
                && fs@[0].0@ == "wrap_around"@
                && fs@[0].1 == Json::Bool(wrap_around)
                && fs@[1].0@ == "allow_same"@
                && fs@[1].1 == Json::Bool(allow_same),
            _ => false,
        },
        EditNotification::FindPrevious { wrap_around } => match p {
            Some(Json::Object(fs)) => fs@.len() == 1
                && fs@[0].0@ == "wrap_around"@
                && fs@[0].1 == Json::Bool(wrap_around),
            _ => false,
        },
        EditNotification::DebugRewrap => p is None,
        EditNotification::DebugPrintSpans => p is None,
    }
}

/// The position of `m` among the methods, as the spec function gives it.
pub fn edit_notification_index_of(m: &String) -> (r: i64)
    ensures
        r == edit_notification_index(m@),
{
    if is_text(m, "insert") {
        0
    } else if is_text(m, "delete_forward") {
        1
    } else if is_text(m, "delete_backward") {
        2
    } else if is_text(m, "delete_word_forward") {
        3
    } else if is_text(m, "delete_word_backward") {
        4
    } else if is_text(m, "delete_to_end_of_paragraph") {
        5
    } else if is_text(m, "delete_to_beginning_of_line") {
        6
    } else if is_text(m, "insert_newline") {
        7
    } else if is_text(m, "insert_tab") {
        8
    } else if is_text(m, "move_up") {
        9
    } else if is_text(m, "move_up_and_modify_selection") {
        10
    } else if is_text(m, "move_down") {
        11
    } else if is_text(m, "move_down_and_modify_selection") {
        12
    } else if is_text(m, "move_left") {
        13
    } else if is_text(m, "move_left_and_modify_selection") {
        14
    } else if is_text(m, "move_right") {
        15
    } else if is_text(m, "move_right_and_modify_selection") {
        16
    } else if is_text(m, "move_word_left") {
        17
    } else if is_text(m, "move_word_left_and_modify_selection") {
        18
    } else if is_text(m, "move_word_right") {
        19
    } else if is_text(m, "move_word_right_and_modify_selection") {
        20
    } else if is_text(m, "move_to_beginning_of_paragraph") {
        21
    } else if is_text(m, "move_to_end_of_paragraph") {
        22
    } else if is_text(m, "move_to_left_end_of_line") {
        23
    } else if is_text(m, "move_to_left_end_of_line_and_modify_selection") {
        24
    } else if is_text(m, "move_to_right_end_of_line") {
        25
    } else if is_text(m, "move_to_right_end_of_line_and_modify_selection") {
        26
    } else if is_text(m, "move_to_beginning_of_document") {
        27
    } else if is_text(m, "move_to_beginning_of_document_and_modify_selection") {
        28
    } else if is_text(m, "move_to_end_of_document") {
        29
    } else if is_text(m, "move_to_end_of_document_and_modify_selection") {
        30
    } else if is_text(m, "scroll_page_up") {
        31
    } else if is_text(m, "page_up_and_modify_selection") {
        32
    } else if is_text(m, "scroll_page_down") {
        33
    } else if is_text(m, "page_down_and_modify_selection") {
        34
    } else if is_text(m, "select_all") {
        35
    } else if is_text(m, "add_selection_above") {
        36
    } else if is_text(m, "add_selection_below") {
        37
    } else if is_text(m, "scroll") {
        38
    } else if is_text(m, "goto_line") {
        39
    } else if is_text(m, "request_lines") {
        40
    } else if is_text(m, "yank") {
        41
    } else if is_text(m, "transpose") {
        42
    } else if is_text(m, "click") {
        43
    } else if is_text(m, "drag") {
        44
    } else if is_text(m, "gesture") {
        45
    } else if is_text(m, "undo") {
        46
    } else if is_text(m, "redo") {
        47
    } else if is_text(m, "find_next") {
        48
    } else if is_text(m, "find_previous") {
        49
    } else if is_text(m, "debug_rewrap") {
        50
    } else if is_text(m, "debug_print_spans") {
        51
    } else {
        -1
    }
}

/// Decodes method `method` with parameters `params` (absent when `None`).
pub fn edit_notification_from_parts(method: &String, params: &Option<Json>) -> (r: Option<EditNotification>)
    ensures
        r == edit_notification_of(method@, *params),
{
    let k = edit_notification_index_of(method);
    if k == 0 {
        match params {
            Some(Json::Object(fs)) => match get_str(fs, "chars") {
                Some(chars) => Some(EditNotification::Insert { chars }),
                _ => None,
            },
            _ => None,
        }
    } else if k == 1 {
        if params.is_none() {
            Some(EditNotification::DeleteForward)
        } else {
            None
        }
    } else if k == 2 {
        if params.is_none() {
            Some(EditNotification::DeleteBackward)
        } else {
            None
        }
    } else if k == 3 {
        if params.is_none() {
            Some(EditNotification::DeleteWordForward)
        } else {
            None
        }
    } else if k == 4 {
        if params.is_none() {
            Some(EditNotification::DeleteWordBackward)
        } else {
            None
        }
    } else if k == 5 {
        if params.is_none() {
            Some(EditNotification::DeleteToEndOfParagraph)
        } else {
            None
        }
    } else if k == 6 {
        if params.is_none() {
            Some(EditNotification::DeleteToBeginningOfLine)
        } else {
            None
        }
    } else if k == 7 {
        if params.is_none() {
            Some(EditNotification::InsertNewline)
        } else {
            None
        }
    } else if k == 8 {
        if params.is_none() {
            Some(EditNotification::InsertTab)
        } else {
            None
        }
    } else if k == 9 {
        if params.is_none() {
            Some(EditNotification::MoveUp)
        } else {
            None
        }
    } else if k == 10 {
        if params.is_none() {
            Some(EditNotification::MoveUpAndModifySelection)
        } else {
            None
        }
    } else if k == 11 {
        if params.is_none() {
            Some(EditNotification::MoveDown)
        } else {
            None
        }
    } else if k == 12 {
        if params.is_none() {
            Some(EditNotification::MoveDownAndModifySelection)
        } else {
            None
        }
    } else if k == 13 {
        if params.is_none() {
            Some(EditNotification::MoveLeft)
        } else {
            None
        }
    } else if k == 14 {
        if params.is_none() {
            Some(EditNotification::MoveLeftAndModifySelection)
        } else {
            None
        }
    } else if k == 15 {
        if params.is_none() {
            Some(EditNotification::MoveRight)
        } else {
            None
        }
    } else if k == 16 {
        if params.is_none() {
            Some(EditNotification::MoveRightAndModifySelection)
        } else {
            None
        }
    } else if k == 17 {
        if params.is_none() {
            Some(EditNotification::MoveWordLeft)
        } else {
            None
        }
    } else if k == 18 {
        if params.is_none() {
            Some(EditNotification::MoveWordLeftAndModifySelection)
        } else {
            None
        }
    } else if k == 19 {
        if params.is_none() {
            Some(EditNotification::MoveWordRight)
        } else {
            None
        }
    } else if k == 20 {
        if params.is_none() {
            Some(EditNotification::MoveWordRightAndModifySelection)
        } else {
            None
        }
    } else if k == 21 {
        if params.is_none() {
            Some(EditNotification::MoveToBeginningOfParagraph)
        } else {
            None
        }
    } else if k == 22 {
        if params.is_none() {
            Some(EditNotification::MoveToEndOfParagraph)
        } else {
            None
        }
    } else if k == 23 {
        if params.is_none() {
            Some(EditNotification::MoveToLeftEndOfLine)
        } else {
            None
        }
    } else if k == 24 {
        if params.is_none() {
            Some(EditNotification::MoveToLeftEndOfLineAndModifySelection)
        } else {
            None
        }
    } else if k == 25 {
        if params.is_none() {
            Some(EditNotification::MoveToRightEndOfLine)
        } else {
            None
        }
    } else if k == 26 {
        if params.is_none() {
            Some(EditNotification::MoveToRightEndOfLineAndModifySelection)
        } else {
            None
        }
    } else if k == 27 {
        if params.is_none() {
            Some(EditNotification::MoveToBeginningOfDocument)
        } else {
            None
        }
    } else if k == 28 {
        if params.is_none() {
            Some(EditNotification::MoveToBeginningOfDocumentAndModifySelection)
        } else {
            None
        }
    } else if k == 29 {
        if params.is_none() {
            Some(EditNotification::MoveToEndOfDocument)
        } else {
            None
        }
    } else if k == 30 {
        if params.is_none() {
            Some(EditNotification::MoveToEndOfDocumentAndModifySelection)
        } else {
            None
        }
    } else if k == 31 {
        if params.is_none() {
            Some(EditNotification::ScrollPageUp)
        } else {
            None
        }
    } else if k == 32 {
        if params.is_none() {
            Some(EditNotification::PageUpAndModifySelection)
        } else {
            None
        }
    } else if k == 33 {
        if params.is_none() {
            Some(EditNotification::ScrollPageDown)
        } else {
            None
        }
    } else if k == 34 {
        if params.is_none() {
            Some(EditNotification::PageDownAndModifySelection)
        } else {
            None
        }
    } else if k == 35 {
        if params.is_none() {
            Some(EditNotification::SelectAll)
        } else {
            None
        }
    } else if k == 36 {
        if params.is_none() {
            Some(EditNotification::AddSelectionAbove)
        } else {
            None
        }
    } else if k == 37 {
        if params.is_none() {
            Some(EditNotification::AddSelectionBelow)
        } else {
            None
        }
    } else if k == 38 {
        match params {
            Some(j) => match LineRange::from_json(j) {
                Some(x) => Some(EditNotification::Scroll(x)),
                None => None,
            },
            None => None,
        }
    } else if k == 39 {
        match params {
            Some(Json::Object(fs)) => match get_u64(fs, "line") {
                Some(line) => Some(EditNotification::GotoLine { line }),
                _ => None,
            },
            _ => None,
        }
    } else if k == 40 {
        match params {
            Some(j) => match LineRange::from_json(j) {
                Some(x) => Some(EditNotification::RequestLines(x)),
                None => None,
            },
            None => None,
        }
    } else if k == 41 {
        if params.is_none() {
            Some(EditNotification::Yank)
        } else {
            None
        }
    } else if k == 42 {
        if params.is_none() {
            Some(EditNotification::Transpose)
        } else {
            None
        }
    } else if k == 43 {
        match params {
            Some(j) => match MouseAction::from_json(j) {
                Some(x) => Some(EditNotification::Click(x)),
                None => None,
            },
            None => None,
        }
    } else if k == 44 {
        match params {
            Some(j) => match MouseAction::from_json(j) {
                Some(x) => Some(EditNotification::Drag(x)),
                None => None,
            },
            None => None,
        }
    } else if k == 45 {
        match params {
            Some(Json::Object(fs)) => match (get_u64(fs, "line"), get_u64(fs, "column"), get_gesture(fs, "ty")) {
                (Some(line), Some(column), Some(ty)) => Some(EditNotification::Gesture { line, column, ty }),
                _ => None,
            },
            _ => None,
        }
    } else if k == 46 {
        if params.is_none() {
            Some(EditNotification::Undo)
        } else {
            None
        }
    } else if k == 47 {
        if params.is_none() {
            Some(EditNotification::Redo)
        } else {
            None
        }
    } else if k == 48 {
        match params {
            Some(Json::Object(fs)) => match (get_bool(fs, "wrap_around"), get_bool(fs, "allow_same")) {
                (Some(wrap_around), Some(allow_same)) => Some(EditNotification::FindNext { wrap_around, allow_same }),
                _ => None,
            },
            _ => None,
        }
    } else if k == 49 {
        match params {
            Some(Json::Object(fs)) => match get_bool(fs, "wrap_around") {
                Some(wrap_around) => Some(EditNotification::FindPrevious { wrap_around }),
                _ => None,
            },
            _ => None,
        }
    } else if k == 50 {
        if params.is_none() {
            Some(EditNotification::DebugRewrap)
        } else {
            None
        }
    } else if k == 51 {
        if params.is_none() {
            Some(EditNotification::DebugPrintSpans)
        } else {
            None
        }
    } else {
        None
    }
}

impl EditNotification {
    /// Splits the command into its method name and its parameters, which are
    /// absent for a command that carries none; decoding them gives `self` back.
    pub fn into_parts(self) -> (r: (String, Option<Json>))
        ensures
            is_edit_notification_method(r.0@),
            edit_notification_of(r.0@, r.1) == Some(self),
            r.1 matches Some(j) ==> !is_empty_container(j),
            r.0@ == edit_notification_name(self),
            edit_notification_params_are(self, r.1),
    {
        proof {
            lemma_edit_notification_names();
        }
        match self {
            EditNotification::Insert { chars } => {
                let mut fs: Vec<(String, Json)> = Vec::new();
                push_member(&mut fs, "chars", Json::Str(chars));
                proof {
                    reveal_strlit("chars");
                }
                (text("insert"), Some(Json::Object(fs)))
            },
            EditNotification::DeleteForward => {
                (text("delete_forward"), None)
            },
            EditNotification::DeleteBackward => {
                (text("delete_backward"), None)
            },
            EditNotification::DeleteWordForward => {
                (text("delete_word_forward"), None)
            },
            EditNotification::DeleteWordBackward => {
                (text("delete_word_backward"), None)
            },
            EditNotification::DeleteToEndOfParagraph => {
                (text("delete_to_end_of_paragraph"), None)
            },
            EditNotification::DeleteToBeginningOfLine => {
                (text("delete_to_beginning_of_line"), None)
            },
            EditNotification::InsertNewline => {
                (text("insert_newline"), None)
            },
            EditNotification::InsertTab => {
                (text("insert_tab"), None)
            },
            EditNotification::MoveUp => {
                (text("move_up"), None)
            },
            EditNotification::MoveUpAndModifySelection => {
                (text("move_up_and_modify_selection"), None)
            },
            EditNotification::MoveDown => {
                (text("move_down"), None)
            },
            EditNotification::MoveDownAndModifySelection => {
                (text("move_down_and_modify_selection"), None)
            },
            EditNotification::MoveLeft => {
                (text("move_left"), None)
            },
            EditNotification::MoveLeftAndModifySelection => {
                (text("move_left_and_modify_selection"), None)
            },
            EditNotification::MoveRight => {
                (text("move_right"), None)
            },
            EditNotification::MoveRightAndModifySelection => {
                (text("move_right_and_modify_selection"), None)
            },
            EditNotification::MoveWordLeft => {
                (text("move_word_left"), None)
            },
            EditNotification::MoveWordLeftAndModifySelection => {
                (text("move_word_left_and_modify_selection"), None)
            },
            EditNotification::MoveWordRight => {
                (text("move_word_right"), None)
            },
            EditNotification::MoveWordRightAndModifySelection => {
                (text("move_word_right_and_modify_selection"), None)
            },
            EditNotification::MoveToBeginningOfParagraph => {
                (text("move_to_beginning_of_paragraph"), None)
            },
            EditNotification::MoveToEndOfParagraph => {
                (text("move_to_end_of_paragraph"), None)
            },
            EditNotification::MoveToLeftEndOfLine => {
                (text("move_to_left_end_of_line"), None)
            },
            EditNotification::MoveToLeftEndOfLineAndModifySelection => {
                (text("move_to_left_end_of_line_and_modify_selection"), None)
            },
            EditNotification::MoveToRightEndOfLine => {
                (text("move_to_right_end_of_line"), None)
            },
            EditNotification::MoveToRightEndOfLineAndModifySelection => {
                (text("move_to_right_end_of_line_and_modify_selection"), None)
            },
            EditNotification::MoveToBeginningOfDocument => {
                (text("move_to_beginning_of_document"), None)
            },
            EditNotification::MoveToBeginningOfDocumentAndModifySelection => {
                (text("move_to_beginning_of_document_and_modify_selection"), None)
            },
            EditNotification::MoveToEndOfDocument => {
                (text("move_to_end_of_document"), None)
            },
            EditNotification::MoveToEndOfDocumentAndModifySelection => {
                (text("move_to_end_of_document_and_modify_selection"), None)
            },
            EditNotification::ScrollPageUp => {
                (text("scroll_page_up"), None)
            },
            EditNotification::PageUpAndModifySelection => {
                (text("page_up_and_modify_selection"), None)
            },
            EditNotification::ScrollPageDown => {
                (text("scroll_page_down"), None)
            },
            EditNotification::PageDownAndModifySelection => {
                (text("page_down_and_modify_selection"), None)
            },
            EditNotification::SelectAll => {
                (text("select_all"), None)
            },
            EditNotification::AddSelectionAbove => {
                (text("add_selection_above"), None)
            },
            EditNotification::AddSelectionBelow => {
                (text("add_selection_below"), None)
            },
            EditNotification::Scroll(x) => {
                (text("scroll"), Some(x.to_json()))
            },
            EditNotification::GotoLine { line } => {
                let mut fs: Vec<(String, Json)> = Vec::new();
                push_member(&mut fs, "line", Json::Int(line));
                proof {
                    reveal_strlit("line");
                }
                (text("goto_line"), Some(Json::Object(fs)))
            },
            EditNotification::RequestLines(x) => {
                (text("request_lines"), Some(x.to_json()))
            },
            EditNotification::Yank => {
                (text("yank"), None)
            },
            EditNotification::Transpose => {
                (text("transpose"), None)
            },
            EditNotification::Click(x) => {
                (text("click"), Some(x.to_json()))
            },
            EditNotification::Drag(x) => {
                (text("drag"), Some(x.to_json()))
            },
            EditNotification::Gesture { line, column, ty } => {
                let mut fs: Vec<(String, Json)> = Vec::new();
                push_member(&mut fs, "line", Json::Int(line));
                push_member(&mut fs, "column", Json::Int(column));
                push_member(&mut fs, "ty", gesture_json(ty));
                proof {
                    reveal_strlit("line");
                    reveal_strlit("column");
                    assert("column"@.len() != "line"@.len());
                    reveal_strlit("ty");
                    assert("ty"@.len() != "line"@.len());
                    assert("ty"@.len() != "column"@.len());
                }
                (text("gesture"), Some(Json::Object(fs)))
            },
            EditNotification::Undo => {
                (text("undo"), None)
            },
            EditNotification::Redo => {
                (text("redo"), None)
            },
            EditNotification::FindNext { wrap_around, allow_same } => {
                let mut fs: Vec<(String, Json)> = Vec::new();
                push_member(&mut fs, "wrap_around", Json::Bool(wrap_around));
                push_member(&mut fs, "allow_same", Json::Bool(allow_same));
                proof {
                    reveal_strlit("wrap_around");
                    reveal_strlit("allow_same");
                    assert("allow_same"@.len() != "wrap_around"@.len());
                }
                (text("find_next"), Some(Json::Object(fs)))
            },
            EditNotification::FindPrevious { wrap_around } => {
                let mut fs: Vec<(String, Json)> = Vec::new();
                push_member(&mut fs, "wrap_around", Json::Bool(wrap_around));
                proof {
                    reveal_strlit("wrap_around");
                }
                (text("find_previous"), Some(Json::Object(fs)))
            },
            EditNotification::DebugRewrap => {
                (text("debug_rewrap"), None)
            },
            EditNotification::DebugPrintSpans => {
                (text("debug_print_spans"), None)
            },
        }
    }
}

/// An edit command that expects a reply.
#[derive(Debug, Clone, PartialEq, Eq)]
pub enum EditRequest {
    Cut,
    Copy,
    Find { chars: Option<String>, case_sensitive: bool },
}

/// The position of `m` in the list of edit_request methods, or -1 when it is none of them.
pub open spec fn edit_request_index(m: Seq<char>) -> int {
    if m == "cut"@ {
        0
    } else if m == "copy"@ {
        1
    } else if m == "find"@ {
        2
    } else {
        -1
    }
}

/// Whether `m` names a edit request.
pub open spec fn is_edit_request_method(m: Seq<char>) -> bool {
    edit_request_index(m) >= 0
}

/// The edit request with method number `k` whose parameters are `p`, if `p` fits it.
pub open spec fn edit_request_at(k: int, p: Option<Json>) -> Option<EditRequest> {
    if k == 0 {
        if p is None {
            Some(EditRequest::Cut)
        } else {
            None
        }
    } else if k == 1 {
        if p is None {
            Some(EditRequest::Copy)
        } else {
            None
        }
    } else if k == 2 {
        match p {
            Some(Json::Object(fs)) => match (opt_str_field(fs@, "chars"@), bool_field(fs@, "case_sensitive"@)) {
                (Some(chars), Some(case_sensitive)) => Some(EditRequest::Find { chars, case_sensitive }),
                _ => None,
            },
            _ => None,
        }
    } else {
        None
    }
}

/// The edit request that method `m` with parameters `p` denotes.
pub open spec fn edit_request_of(m: Seq<char>, p: Option<Json>) -> Option<EditRequest> {
    edit_request_at(edit_request_index(m), p)
}

/// Each method name stands at its own position: the names differ in
/// length, or else at the character shown.
proof fn lemma_edit_request_names()
    ensures
        edit_request_index("cut"@) == 0,
        edit_request_index("copy"@) == 1,
        edit_request_index("find"@) == 2,
{
    reveal_strlit("cut");
    assert("cut"@.len() == 3);
    reveal_strlit("copy");
    assert("copy"@.len() == 4);
    reveal_strlit("find");
    assert("find"@.len() == 4);
    assert("find"@[0] != "copy"@[0]);
}

/// The method name that writes `c`.
pub open spec fn edit_request_name(c: EditRequest) -> Seq<char> {
    match c {
        EditRequest::Cut => "cut"@,
        EditRequest::Copy => "copy"@,
        EditRequest::Find { .. } => "find"@,
    }
}

/// Whether `p` is exactly the parameters that write `c`: none for a command
/// without any, an array for a positional one, else an object with one member
/// per field, in order.
pub open spec fn edit_request_params_are(c: EditRequest, p: Option<Json>) -> bool {
    match c {
        EditRequest::Cut => p is None,
        EditRequest::Copy => p is None,
        EditRequest::Find { chars, case_sensitive } => match p {
            Some(Json::Object(fs)) => fs@.len() == 2
                && fs@[0].0@ == "chars"@
                && fs@[0].1 == opt_str_value(chars)
                && fs@[1].0@ == "case_sensitive"@
                && fs@[1].1 == Json::Bool(case_sensitive),
            _ => false,
        },
    }
}

/// The position of `m` among the methods, as the spec function gives it.
pub fn edit_request_index_of(m: &String) -> (r: i64)
    ensures
        r == edit_request_index(m@),
{
    if is_text(m, "cut") {
        0
    } else if is_text(m, "copy") {
        1
    } else if is_text(m, "find") {
        2
    } else {
        -1
    }
}

/// Decodes method `method` with parameters `params` (absent when `None`).
pub fn edit_request_from_parts(method: &String, params: &Option<Json>) -> (r: Option<EditRequest>)
    ensures
        r == edit_request_of(method@, *params),
{
    let k = edit_request_index_of(method);
    if k == 0 {
        if params.is_none() {
            Some(EditRequest::Cut)
        } else {
            None
        }
    } else if k == 1 {
        if params.is_none() {
            Some(EditRequest::Copy)
        } else {
            None
        }
    } else if k == 2 {
        match params {
            Some(Json::Object(fs)) => match (get_opt_str(fs, "chars"), get_bool(fs, "case_sensitive")) {
                (Some(chars), Some(case_sensitive)) => Some(EditRequest::Find { chars, case_sensitive }),
                _ => None,
            },
            _ => None,
        }
    } else {
        None
    }
}

impl EditRequest {
    /// Splits the command into its method name and its parameters, which are
    /// absent for a command that carries none; decoding them gives `self` back.
    pub fn into_parts(self) -> (r: (String, Option<Json>))
        ensures
            is_edit_request_method(r.0@),
            edit_request_of(r.0@, r.1) == Some(self),
            r.1 matches Some(j) ==> !is_empty_container(j),
            r.0@ == edit_request_name(self),
            edit_request_params_are(self, r.1),
    {
        proof {
            lemma_edit_request_names();
        }
        match self {
            EditRequest::Cut => {
                (text("cut"), None)
            },
            EditRequest::Copy => {
                (text("copy"), None)
            },
            EditRequest::Find { chars, case_sensitive } => {
                let mut fs: Vec<(String, Json)> = Vec::new();
                push_member(&mut fs, "chars", opt_str_json(chars));
                push_member(&mut fs, "case_sensitive", Json::Bool(case_sensitive));
                proof {
                    reveal_strlit("chars");
                    reveal_strlit("case_sensitive");
                    assert("case_sensitive"@.len() != "chars"@.len());
                }
                (text("find"), Some(Json::Object(fs)))
            },
        }
    }
}

} // verus!
