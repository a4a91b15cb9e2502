use math_accelerate::{
    AcceleratorError, BufferRequest, BuildFailure, ConstantBuffer, ContextRequest, KernelArgument,
    MathAccelerator, MemoryAccess, ToKernelArgumentValue, WorkSize, INPUT_1, INPUT_2, KERNEL_ADD,
    OUTPUT,
};

fn accelerator() -> MathAccelerator<u8> {
    MathAccelerator::new(ContextRequest::select(Ok(1)).unwrap(), Ok(0)).unwrap()
}

fn buffer<'a>(
    context: &'a MathAccelerator<u8>,
    data: &[i32],
    memory: u32,
) -> ConstantBuffer<'a, i32, usize, u8, u32> {
    context.create_constant_buffer(data).unwrap().allocated(Ok(memory)).unwrap()
}

#[test]
fn buffer_is_passed_as_its_memory() {
    let context = accelerator();
    let input = buffer(&context, &[1, 2, 3], 41);
    let value = input.to_kernel_argument_value();
    assert_eq!(value.resolve(), KernelArgument::Buffer(&41));
}

#[test]
fn scalar_is_passed_by_value() {
    let scalar: i32 = -7;
    let value = ToKernelArgumentValue::<i32, u32>::to_kernel_argument_value(&scalar);
    assert_eq!(value.resolve(), KernelArgument::Scalar(-7));
    let wide: u64 = u64::MAX;
    let value = ToKernelArgumentValue::<u64, String>::to_kernel_argument_value(&wide);
    assert_eq!(value.resolve(), KernelArgument::Scalar(u64::MAX));
}

#[test]
fn kernel_request_keeps_names_and_order() {
    let context = accelerator();
    let input = buffer(&context, &[1, 2, 3, 4, 5, 6], 41);
    let factor: i32 = 3;
    let output = buffer(&context, &[0; 6], 42);
    let arguments = [
        ("source", input.to_kernel_argument_value()),
        ("factor", ToKernelArgumentValue::<i32, u32>::to_kernel_argument_value(&factor)),
        ("target", output.to_kernel_argument_value()),
    ];
    let request = context.create_kernel("scale", (2usize, 3usize), &arguments);
    assert!(std::ptr::eq(request.accelerator, &context));
    assert_eq!(request.name, "scale");
    assert_eq!(request.global_work_size, WorkSize::Two(2, 3));
    assert_eq!(
        request.arguments,
        vec![
            ("source", KernelArgument::Buffer(&41)),
            ("factor", KernelArgument::Scalar(3)),
            ("target", KernelArgument::Buffer(&42)),
        ]
    );
}

#[test]
fn kernel_request_without_arguments() {
    let context = accelerator();
    let arguments: [(&'static str, math_accelerate::KernelArgumentValue<'_, i32, u32>); 0] = [];
    let request = context.create_kernel("noop", (1usize, 2usize, 3usize), &arguments);
    assert_eq!(request.name, "noop");
    assert_eq!(request.global_work_size, WorkSize::Three(1, 2, 3));
    assert!(request.arguments.is_empty());
}

#[test]
fn built_kernel_holds_what_the_backend_built() {
    let context = accelerator();
    let scalar: i32 = 1;
    let arguments =
        [("value", ToKernelArgumentValue::<i32, u32>::to_kernel_argument_value(&scalar))];
    let request = context.create_kernel("store", 1usize, &arguments);
    let kernel = request.built(Ok(String::from("kernel"))).unwrap();
    assert_eq!(kernel.handle(), "kernel");
}

#[test]
fn unknown_kernel_name_is_a_build_error() {
    let context = accelerator();
    let arguments: [(&'static str, math_accelerate::KernelArgumentValue<'_, i32, u32>); 0] = [];
    let request = context.create_kernel("missing", 1usize, &arguments);
    let outcome: Result<u64, BuildFailure> =
        Err(BuildFailure::Kernel(String::from("CL_INVALID_KERNEL_NAME")));
    assert_eq!(
        request.built(outcome).err(),
        Some(AcceleratorError::KernelBuildError(String::from("CL_INVALID_KERNEL_NAME")))
    );
}

#[test]
fn unfit_argument_is_a_bind_error() {
    let context = accelerator();
    let scalar: i32 = 1;
    let arguments =
        [("value", ToKernelArgumentValue::<i32, u32>::to_kernel_argument_value(&scalar))];
    let request = context.create_kernel("store", 1usize, &arguments);
    let outcome: Result<u64, BuildFailure> =
        Err(BuildFailure::Argument(String::from("argument 0 should be a 'float*'")));
    assert_eq!(
        request.built(outcome).err(),
        Some(AcceleratorError::ArgumentBindError(String::from("argument 0 should be a 'float*'")))
    );
}

#[test]
fn enqueue_outcome_is_passed_on() {
    let context = accelerator();
    let arguments: [(&'static str, math_accelerate::KernelArgumentValue<'_, i32, u32>); 0] = [];
    let kernel = context.create_kernel("noop", 1usize, &arguments).built(Ok(7u64)).unwrap();
    assert_eq!(kernel.enq(Ok(())), Ok(()));
    assert_eq!(
        kernel.enq(Err(String::from("CL_OUT_OF_RESOURCES"))),
        Err(AcceleratorError::BackendOperationError(String::from("CL_OUT_OF_RESOURCES")))
    );
    assert_eq!(*kernel.handle(), 7);
}

#[test]
fn add_runs_through_its_three_steps() {
    let context = accelerator();
    let left = buffer(&context, &[1, 2, 3, 4], 1);
    let right = buffer(&context, &[10, 20, 30, 40], 2);

    let step = context.kernel_add(&left, &right);
    assert_eq!(step.request(), BufferRequest { len: 4, access: MemoryAccess::ReadWrite });
    assert_eq!(*step.output().dimensions(), 4);
    assert!(std::ptr::eq(step.output().accelerator(), &context));

    let step = step.allocated(Ok(3)).unwrap();
    {
        let request = step.request();
        assert!(std::ptr::eq(request.accelerator, &context));
        assert_eq!(request.name, "kernel_add");
        assert_eq!(request.name, KERNEL_ADD);
        assert_eq!(request.global_work_size, WorkSize::One(4));
        assert_eq!(
            request.arguments,
            vec![
                ("input_1", KernelArgument::Buffer(&1)),
                ("input_2", KernelArgument::Buffer(&2)),
                ("output", KernelArgument::Buffer(&3)),
            ]
        );
        assert_eq!(request.arguments[0].0, INPUT_1);
        assert_eq!(request.arguments[1].0, INPUT_2);
        assert_eq!(request.arguments[2].0, OUTPUT);
    }

    let step = step.built(Ok("built")).unwrap();
    assert_eq!(*step.kernel().handle(), "built");

    let sum = step.enqueued(Ok(())).unwrap();
    assert_eq!(*sum.output.memory(), 3);
    assert_eq!(*sum.output.dimensions(), 4);
    assert_eq!(sum.output.len(), 4);
    assert!(std::ptr::eq(sum.input_1, &left));
    assert!(std::ptr::eq(sum.input_2, &right));
}

#[test]
fn add_of_shapes_with_several_axes() {
    let context = accelerator();
    let data = [0i32; 6];
    let left = context
        .create_constant_buffer_with_dimensions(&data, (2usize, 3usize))
        .unwrap()
        .allocated(Ok(1u32))
        .unwrap();
    let right = context
        .create_constant_buffer_with_dimensions(&data, (2usize, 3usize))
        .unwrap()
        .allocated(Ok(2u32))
        .unwrap();
    let step = context.kernel_add(&left, &right);
    assert_eq!(step.request().len, 6);
    let step = step.allocated(Ok(3)).unwrap();
    assert_eq!(step.request().global_work_size, WorkSize::Two(2, 3));
    let sum = step.built(Ok(0u8)).unwrap().enqueued(Ok(())).unwrap();
    assert_eq!(*sum.output.dimensions(), (2, 3));
}

#[test]
fn add_of_empty_buffers_allocates_one_element() {
    let context = accelerator();
    let left = buffer(&context, &[], 1);
    let right = buffer(&context, &[], 2);
    let step = context.kernel_add(&left, &right);
    assert_eq!(step.request().len, 1);
    let step = step.allocated(Ok(3)).unwrap();
    assert_eq!(step.request().global_work_size, WorkSize::One(0));
    let sum = step.built(Ok(0u8)).unwrap().enqueued(Ok(())).unwrap();
    assert_eq!(sum.output.len(), 0);
}

#[test]
fn add_stops_when_the_output_cannot_be_allocated() {
    let context = accelerator();
    let left = buffer(&context, &[1, 2], 1);
    let right = buffer(&context, &[3, 4], 2);
    let step = context.kernel_add(&left, &right);
    assert_eq!(
        step.allocated(Err(String::from("out of device memory"))).err(),
        Some(AcceleratorError::BackendOperationError(String::from("out of device memory")))
    );
}

#[test]
fn add_stops_when_the_kernel_is_not_in_the_program() {
    let context = accelerator();
    let left = buffer(&context, &[1, 2], 1);
    let right = buffer(&context, &[3, 4], 2);
    let step = context.kernel_add(&left, &right).allocated(Ok(3)).unwrap();
    let outcome: Result<u64, BuildFailure> =
        Err(BuildFailure::Kernel(String::from("CL_INVALID_KERNEL_NAME")));
    assert_eq!(
        step.built(outcome).err(),
        Some(AcceleratorError::KernelBuildError(String::from("CL_INVALID_KERNEL_NAME")))
    );
}

#[test]
fn add_stops_when_an_argument_does_not_fit() {
    let context = accelerator();
    let left = buffer(&context, &[1, 2], 1);
    let right = buffer(&context, &[3, 4], 2);
    let step = context.kernel_add(&left, &right).allocated(Ok(3)).unwrap();
    let outcome: Result<u64, BuildFailure> =
        Err(BuildFailure::Argument(String::from("input_1 should be a 'float*'")));
    assert_eq!(
        step.built(outcome).err(),
        Some(AcceleratorError::ArgumentBindError(String::from("input_1 should be a 'float*'")))
    );
}

#[test]
fn add_reports_a_failed_enqueue() {
    let context = accelerator();
    let left = buffer(&context, &[1, 2], 1);
    let right = buffer(&context, &[3, 4], 2);
    let step = context.kernel_add(&left, &right).allocated(Ok(3)).unwrap().built(Ok(0u8)).unwrap();
    assert_eq!(
        step.enqueued(Err(String::from("CL_INVALID_WORK_GROUP_SIZE"))).err(),
        Some(AcceleratorError::BackendOperationError(String::from("CL_INVALID_WORK_GROUP_SIZE")))
    );
}
