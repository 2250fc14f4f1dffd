# menubar

The menu bar item of a tiling window manager for macOS.

`src/` is a library verified with Verus. It decides what the item's menu lists,
which entries are enabled and checked, what choosing an entry does, and what the
status item shows of the virtual workspaces. Nothing in it draws.

- `manager`: the item's state, brought up to date by `MenuBarManager::update`
- `menu`, `widths`, `actions`: the rows of the menu and what choosing one does
- `workspaces`: the virtual workspaces and windows that the item follows
- `content`, `descriptor`, `indicator`, `numerals`: what the status item reads as
- `placement`: how a view gets into the status item
- `ordered`: ascending lists without repetition

`app/` is the program around it: the AppKit views and the Bevy system that feeds
them. It measures in floating point, hands the library whole numbers, and draws
what the library decides. It builds on Apple platforms only.
