# TG WS Proxy launcher

Starts the TG WS Proxy on Windows: in a console, behind a window, behind an icon in the
notification area, or as a service.

`src/` is the launcher's logic, verified with Verus. Its functions take what was read or what
happened (the configuration file, the command line, a click, the result of an attempt) and return
a plan: the actions to perform, in order. The contracts state the plans exactly; the functions
whose names begin with `law_` state what holds of the program as a whole.

- `text`: decimal numbers and addresses
- `config`: the configuration file
- `args`: the command line
- `secret`: the proxy secret
- `plan`: actions and plans
- `launch`: the parts of a run, in each mode
- `runs`: runs as a whole
- `gui`, `tray`, `service`: the window, the icon, the service

`app/` is the program: it reads, performs the plans, and calls the proxy engine.
