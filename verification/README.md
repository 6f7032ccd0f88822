# computer-use-hyprland

An MCP server that lets an agent drive a Hyprland desktop: read the
accessibility tree, take screenshots, target windows, and send input.

What the server decides is in `src/`, a library verified with Verus: which
window or element a request means, which pixel and which keys follow from it,
what is refused, and what the caller is told. Each tool is a state machine from
a task and a report to the next task, so what a tool does next is stated and
proved for whatever the desktop answers. A task carries what it is carried out
with: the window the allowlist is asked about, the text that is typed, the
button that is struck.

What the server does is in `app/`: `hyprctl`, the accessibility bus, the
screenshot portal, the uinput pointer, ydotool and wtype, the lock file, and
the MCP transport. It performs the task the library hands out and reports what
came of it. Two things are computed there and not proved: what takes
floating-point numbers, which is the scale of a capture and the pages of a
scroll, and how an object on the accessibility bus is read and called.

| Module | What it owns |
|---|---|
| `tools/` | The tools: click, scroll, drag, keys, elements, windows, capture, state, wait |
| `windowing/`, `terminal` | Windows: the Hyprland backend, resolving targets, focusing, what runs in a terminal |
| `cache`, `elements`, `tree`, `apps` | The accessibility tree and finding things in it |
| `geometry`, `abs_pointer`, `screenshot` | Pixels: clipping, the pointer's events, payloads |
| `keys`, `input`, `notes` | Key chords, the commands that send input, what is said of it |
| `gate`, `session_lock` | Who may send input: the allowlist and the machine-wide lock |
| `diagnostics`, `environment`, `cli` | What the desktop offers, its environment, the commands |
| `params`, `schema` | What requests hold, and the schemas that describe them |
| `text`, `numerals`, `select`, `command` | Text, digits, picking from lists, what programs leave behind |
