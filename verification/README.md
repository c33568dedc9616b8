# silva

silva runs computational workflows: folders of jobs, each a container image
and a few scripts, run one after another in dependency order, with the outputs
of a job handed on as the inputs of the jobs that depend on it. It has a
terminal interface that browses application images, workflows and the health
of the host, and a headless mode that runs one workflow and reports on it.

## Layout

- `src/` is the library, verified with Verus. Every function carries a
  contract over a mathematical model of its data, and the properties that span
  several calls are stated as proof functions named `law_*`.
  - `job_config/`: the job, node and workflow configuration files and the
    conversion of parameter values between TOML and JSON.
  - `workflow/`: job and workflow folders, the workflow home, local
    application images, the parameter editor and the workflow tab.
  - `docker/`: the run view (jobs, logs, scrolling, what is drawn) and
    `executor`, the decisions of running one job in a container, made as a
    state machine that is told what the container engine answered.
  - `run.rs`, `inputs.rs`, `headless.rs`, `events.rs`: running a whole
    workflow, handing files from job to job, and reporting progress.
  - `precheck.rs`, `validate.rs`: the static checks run before a workflow.
  - `dok.rs`, `update.rs`, `health_check.rs`, `application.rs`, `app.rs`: the
    remote bundle preparation, the update policy, the health checks, the
    application catalog and the tabs of the interface.
- `app/` is the program around the library: argument parsing, reading and
  writing files, and the serde models of the file formats.
- `tests/` exercises the library on concrete values.
