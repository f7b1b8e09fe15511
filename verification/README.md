# rust_optimizer

A Windows tuner for the network stack, devices and memory settings, with
its decision logic verified by Verus.

- `src/` is the verified library: which PowerShell commands each tuning
  phase runs and in what order, how replies are read (trimming, lines,
  numbers, the hardware script's log), which alternatives are tried when a
  setting fails, and the text of every status line.
- `app/main.rs` is the program: it runs the commands, touches files, the
  registry and processes, and prints what the library reports.
- `tests/` exercises the library on concrete values.

The registry file and the RAM optimizer executable that the program
installs are read at run time from files beside the executable
(`embedded.reg` and `RS RAM Optimizer.exe`).
