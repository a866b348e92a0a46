# hudhook

An overlay for games that present their frames through Direct3D 11, and the
loader that brings it into a running process.

The library in `src/` makes the decisions and calls no system function. Each
procedure is a state machine: `next` names the call to make and its arguments,
`advance` takes what the call answered. What a procedure takes from the slots or
leaves there, it takes and leaves itself. The contracts fix every transition, and
the proof functions whose names start with `law_` state what holds of whole runs.

| module      | decides                                                        |
|-------------|----------------------------------------------------------------|
| `process`   | which running process bears a name                              |
| `injection` | how a library is loaded into a process                          |
| `present`   | how the address of `IDXGISwapChain::Present` is found           |
| `creation`  | how a hook comes about, from the lookup to the armed slots      |
| `slots`     | what hooks and frames leave for the frames that follow          |
| `hooks`     | how a hook is switched on and off, what a frame does            |
| `renderer`  | how a renderer is set up, kept and cleaned up                   |
| `frame`     | what the overlay learns of its window before it draws           |
| `message`   | who gets to see a message to the window                         |
| `c_string`  | strings in buffers of C characters                              |
| `text`      | text as the standard library reads and folds it                 |
| `failure`   | why a procedure cannot go on                                    |

`app/` carries the calls out on Windows.
