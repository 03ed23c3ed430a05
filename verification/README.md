# Print agent

A desktop agent that connects a local label printer with a print queue in the
cloud. It polls the print server, prints the labels it is given on the configured
system printer, and acknowledges each of them.

The crate has two parts.

`src/` is the library, written in Verus: every function in it carries a contract.
The contracts are proved, but for those of eight calls into code outside it, which
are believed: seven small functions around calls into `reqwest` and the standard
library (in `headers`, `api`, `url` and `text`), and `String::push`.

- `api`: the requests to the print server and what is made of its replies
- `headers`: reading and writing HTTP headers
- `printer`: finding the system's printers and sending a label to one
- `status`: the live status shown to the user
- `poller`: the polling loop, as a machine of phases, and the laws it keeps
- `pairing`: deep links that pair the agent with a printer
- `config`: the settings and where they are kept
- `agent`: launch, restart after a change of settings with one loop at a time, and
  the tray menu
- `platform`, `text`, `url`: operating systems, string operations and URLs

`app/` is the program around it: sockets, files, child processes, the tray icon
and the setup window. It performs the actions that the library decides on and
reports back what came of them.

`tests/` runs the library.
