# taskmgr_native

The decisions behind a task manager's native process queries, proved with Verus: which
architecture a process runs as, whether a program file is an ARM64EC one, and in which order
the system is asked.

* `src/` is the verified library. It makes no system call. A query is a chain of steps: each
  function takes the reply to the last step and gives the next step, or the result.
* `app/` performs the steps with the Windows API.
* `tests/` runs the library on concrete images and replies.
