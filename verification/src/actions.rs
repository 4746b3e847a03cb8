//! The actions that the browser offers for an entry.

use crate::entry::{file_kind, kind_of, FileKind};
use vstd::prelude::*;

verus! {

/// One line of the action menu: what it says and the key that picks it.
#[derive(Clone, Copy, Debug)]
pub struct FileAction {
    pub label: &'static str,
    pub key: char,
}

/// View of a [`FileAction`].
pub struct FileActionView {
    pub label: Seq<char>,
    pub key: char,
}

impl View for FileAction {
    type V = FileActionView;

    open spec fn view(&self) -> FileActionView {
        FileActionView { label: self.label@, key: self.key }
    }
}

/// The actions of a vector, each by its view.
pub open spec fn action_views(actions: Seq<FileAction>) -> Seq<FileActionView> {
    actions.map_values(|a: FileAction| a@)
}

/// The menu for an entry of the given kind, in the order in which it is
/// shown. Among search results every menu ends with the way to the entry's
/// folder.
pub open spec fn file_actions(file_type: Seq<char>, in_search_results: bool) -> Seq<
    FileActionView,
> {
    let menu = if kind_of(file_type) == FileKind::Folder {
        seq![
            FileActionView { label: "Download as zip"@, key: 'z' },
            FileActionView { label: "Open in browser"@, key: 'b' },
            FileActionView { label: "Copy path"@, key: 'p' },
            FileActionView { label: "Copy folder ID"@, key: 'i' },
        ]
    } else if kind_of(file_type) == FileKind::Video {
        seq![
            FileActionView { label: "Copy URL"@, key: 'c' },
            FileActionView { label: "Copy Stream URL"@, key: 's' },
            FileActionView { label: "Download"@, key: 'd' },
            FileActionView { label: "Open in browser"@, key: 'b' },
            FileActionView { label: "Copy path"@, key: 'p' },
            FileActionView { label: "Copy file ID"@, key: 'i' },
        ]
    } else {
        seq![
            FileActionView { label: "Copy URL"@, key: 'c' },
            FileActionView { label: "Download"@, key: 'd' },
            FileActionView { label: "Open in browser"@, key: 'b' },
            FileActionView { label: "Copy path"@, key: 'p' },
            FileActionView { label: "Copy file ID"@, key: 'i' },
        ]
    };
    if in_search_results {
        menu.push(FileActionView { label: "Go to folder"@, key: 'g' })
    } else {
        menu
    }
}

/// Every menu has at least four and at most seven lines.
pub proof fn lemma_file_actions_len(file_type: Seq<char>, in_search_results: bool)
    ensures
        4 <= file_actions(file_type, in_search_results).len() <= 7,
{
}

/// Index of the first line of the menu that the key picks; the length of the
/// menu if no line has that key.
pub open spec fn shortcut_position(menu: Seq<FileActionView>, key: char) -> nat
    decreases menu.len(),
{
    if menu.len() == 0 {
        0
    } else if menu[0].key == key {
        0
    } else {
        1 + shortcut_position(menu.drop_first(), key)
    }
}

/// Returns the menu for an entry of the given kind. Input handling and
/// rendering both take it from here.
pub fn file_actions_for(file_type: &str, in_search_results: bool) -> (actions: Vec<FileAction>)
    ensures
        action_views(actions@) == file_actions(file_type@, in_search_results),
{
    let mut actions: Vec<FileAction> = Vec::new();
    let kind = file_kind(file_type);
    if kind == FileKind::Folder {
        actions.push(FileAction { label: "Download as zip", key: 'z' });
        actions.push(FileAction { label: "Open in browser", key: 'b' });
        actions.push(FileAction { label: "Copy path", key: 'p' });
        actions.push(FileAction { label: "Copy folder ID", key: 'i' });
    } else if kind == FileKind::Video {
        actions.push(FileAction { label: "Copy URL", key: 'c' });
        actions.push(FileAction { label: "Copy Stream URL", key: 's' });
        actions.push(FileAction { label: "Download", key: 'd' });
        actions.push(FileAction { label: "Open in browser", key: 'b' });
        actions.push(FileAction { label: "Copy path", key: 'p' });
        actions.push(FileAction { label: "Copy file ID", key: 'i' });
    } else {
        actions.push(FileAction { label: "Copy URL", key: 'c' });
        actions.push(FileAction { label: "Download", key: 'd' });
        actions.push(FileAction { label: "Open in browser", key: 'b' });
        actions.push(FileAction { label: "Copy path", key: 'p' });
        actions.push(FileAction { label: "Copy file ID", key: 'i' });
    }
    if in_search_results {
        actions.push(FileAction { label: "Go to folder", key: 'g' });
    }
    proof {
        assert(action_views(actions@) =~= file_actions(file_type@, in_search_results));
    }
    actions
}

/// The first line of the menu that the key picks, if there is one.
pub fn find_shortcut(actions: &Vec<FileAction>, key: char) -> (r: Option<usize>)
    ensures
        match r {
            Some(i) => i < actions.len() && i as nat == shortcut_position(
                action_views(actions@),
                key,
            ),
            None => shortcut_position(action_views(actions@), key) == actions.len(),
        },
{
    let mut i: usize = 0;
    while i < actions.len() && actions[i].key != key
        invariant
            i <= actions.len(),
            forall|j: int| 0 <= j < i ==> (#[trigger] action_views(actions@)[j]).key != key,
        decreases actions.len() - i,
    {
        i = i + 1;
    }
    proof {
        lemma_shortcut_position(action_views(actions@), key, i as int);
    }
    if i < actions.len() {
        Some(i)
    } else {
        None
    }
}

/// The first line with the given key stands at `i`, or no line has the key
/// and `i` is the length of the menu.
pub proof fn lemma_shortcut_position(menu: Seq<FileActionView>, key: char, i: int)
    requires
        0 <= i <= menu.len(),
        forall|j: int| 0 <= j < i ==> (#[trigger] menu[j]).key != key,
        i < menu.len() ==> menu[i].key == key,
    ensures
        shortcut_position(menu, key) == i as nat,
    decreases i,
{
    if i > 0 {
        let rest = menu.drop_first();
        assert forall|j: int| 0 <= j < i - 1 implies (#[trigger] rest[j]).key != key by {
            assert(rest[j] == menu[j + 1]);
        }
        lemma_shortcut_position(rest, key, i - 1);
    }
}

} // verus!
